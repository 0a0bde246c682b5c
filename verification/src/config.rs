use vstd::prelude::*;

verus! {

/// Number of a block of the chain; durations and delays are counted in blocks.
pub type BlockNumber = u32;

/// Balance of an on-chain account, used for deposits and fees.
pub type Balance = u128;

/// Index of the session at which a queued configuration activates.
pub type SessionIndex = u32;

/// A ratio expressed in parts per billion.
pub type Perbill = u32;

/// Number of backing votes that a configuration migrated from schema v8
/// is given for its new `minimum_backing_votes` field: records written
/// before the field existed keep the behaviour this value encodes.
pub const LEGACY_MIN_BACKING_VOTES: u32 = 2;

/// Parameters of asynchronous backing, carried through the migration as
/// one composite value.
#[derive(Clone, Copy, PartialEq, Eq, Debug)]
pub struct AsyncBackingParams {
    pub max_candidate_depth: u32,
    pub allowed_ancestry_len: u32,
}

/// Limits of the validation execution environment, carried through the
/// migration as one composite value.
#[derive(Clone, Copy, PartialEq, Eq, Debug)]
pub struct ExecutorParams {
    pub max_memory_pages: u32,
    pub stack_logical_max: u32,
    pub stack_native_max: u32,
    pub prechecking_max_memory: u64,
}

/// The host configuration record as persisted under schema version 8.
#[derive(Clone, Copy, PartialEq, Eq, Debug)]
pub struct V8HostConfiguration {
    pub max_code_size: u32,
    pub max_head_data_size: u32,
    pub max_upward_queue_count: u32,
    pub max_upward_queue_size: u32,
    pub max_upward_message_size: u32,
    pub max_upward_message_num_per_candidate: u32,
    pub hrmp_max_message_num_per_candidate: u32,
    pub validation_upgrade_cooldown: BlockNumber,
    pub validation_upgrade_delay: BlockNumber,
    pub max_pov_size: u32,
    pub max_downward_message_size: u32,
    pub hrmp_sender_deposit: Balance,
    pub hrmp_recipient_deposit: Balance,
    pub hrmp_channel_max_capacity: u32,
    pub hrmp_channel_max_total_size: u32,
    pub hrmp_max_parachain_inbound_channels: u32,
    pub hrmp_max_parachain_outbound_channels: u32,
    pub hrmp_channel_max_message_size: u32,
    pub code_retention_period: BlockNumber,
    pub on_demand_cores: u32,
    pub on_demand_retries: u32,
    pub group_rotation_frequency: BlockNumber,
    pub paras_availability_period: BlockNumber,
    pub scheduling_lookahead: u32,
    pub max_validators_per_core: Option<u32>,
    pub max_validators: Option<u32>,
    pub dispute_period: SessionIndex,
    pub dispute_post_conclusion_acceptance_period: BlockNumber,
    pub no_show_slots: u32,
    pub n_delay_tranches: u32,
    pub zeroth_delay_tranche_width: u32,
    pub needed_approvals: u32,
    pub relay_vrf_modulo_samples: u32,
    pub pvf_voting_ttl: SessionIndex,
    pub minimum_validation_upgrade_delay: BlockNumber,
    pub async_backing_params: AsyncBackingParams,
    pub executor_params: ExecutorParams,
    pub on_demand_queue_max_size: u32,
    pub on_demand_base_fee: Balance,
    pub on_demand_fee_variability: Perbill,
    pub on_demand_target_queue_utilization: Perbill,
    pub on_demand_ttl: BlockNumber,
}

/// The host configuration record as persisted under schema version 9:
/// every field of schema v8, plus `minimum_backing_votes`.
#[derive(Clone, Copy, PartialEq, Eq, Debug)]
pub struct V9HostConfiguration {
    pub max_code_size: u32,
    pub max_head_data_size: u32,
    pub max_upward_queue_count: u32,
    pub max_upward_queue_size: u32,
    pub max_upward_message_size: u32,
    pub max_upward_message_num_per_candidate: u32,
    pub hrmp_max_message_num_per_candidate: u32,
    pub validation_upgrade_cooldown: BlockNumber,
    pub validation_upgrade_delay: BlockNumber,
    pub max_pov_size: u32,
    pub max_downward_message_size: u32,
    pub hrmp_sender_deposit: Balance,
    pub hrmp_recipient_deposit: Balance,
    pub hrmp_channel_max_capacity: u32,
    pub hrmp_channel_max_total_size: u32,
    pub hrmp_max_parachain_inbound_channels: u32,
    pub hrmp_max_parachain_outbound_channels: u32,
    pub hrmp_channel_max_message_size: u32,
    pub code_retention_period: BlockNumber,
    pub on_demand_cores: u32,
    pub on_demand_retries: u32,
    pub group_rotation_frequency: BlockNumber,
    pub paras_availability_period: BlockNumber,
    pub scheduling_lookahead: u32,
    pub max_validators_per_core: Option<u32>,
    pub max_validators: Option<u32>,
    pub dispute_period: SessionIndex,
    pub dispute_post_conclusion_acceptance_period: BlockNumber,
    pub no_show_slots: u32,
    pub n_delay_tranches: u32,
    pub zeroth_delay_tranche_width: u32,
    pub needed_approvals: u32,
    pub relay_vrf_modulo_samples: u32,
    pub pvf_voting_ttl: SessionIndex,
    pub minimum_validation_upgrade_delay: BlockNumber,
    pub async_backing_params: AsyncBackingParams,
    pub executor_params: ExecutorParams,
    pub on_demand_queue_max_size: u32,
    pub on_demand_base_fee: Balance,
    pub on_demand_fee_variability: Perbill,
    pub on_demand_target_queue_utilization: Perbill,
    pub on_demand_ttl: BlockNumber,
    pub minimum_backing_votes: u32,
}

/// The default schema-v8 record: every limit at zero, optional limits
/// unset. The defensive loader substitutes this value for a missing or
/// undecodable active record.
pub open spec fn spec_default_v8() -> V8HostConfiguration {
    V8HostConfiguration {
        max_code_size: 0,
        max_head_data_size: 0,
        max_upward_queue_count: 0,
        max_upward_queue_size: 0,
        max_upward_message_size: 0,
        max_upward_message_num_per_candidate: 0,
        hrmp_max_message_num_per_candidate: 0,
        validation_upgrade_cooldown: 0,
        validation_upgrade_delay: 0,
        max_pov_size: 0,
        max_downward_message_size: 0,
        hrmp_sender_deposit: 0,
        hrmp_recipient_deposit: 0,
        hrmp_channel_max_capacity: 0,
        hrmp_channel_max_total_size: 0,
        hrmp_max_parachain_inbound_channels: 0,
        hrmp_max_parachain_outbound_channels: 0,
        hrmp_channel_max_message_size: 0,
        code_retention_period: 0,
        on_demand_cores: 0,
        on_demand_retries: 0,
        group_rotation_frequency: 0,
        paras_availability_period: 0,
        scheduling_lookahead: 0,
        max_validators_per_core: None,
        max_validators: None,
        dispute_period: 0,
        dispute_post_conclusion_acceptance_period: 0,
        no_show_slots: 0,
        n_delay_tranches: 0,
        zeroth_delay_tranche_width: 0,
        needed_approvals: 0,
        relay_vrf_modulo_samples: 0,
        pvf_voting_ttl: 0,
        minimum_validation_upgrade_delay: 0,
        async_backing_params: AsyncBackingParams { max_candidate_depth: 0, allowed_ancestry_len: 0 },
        executor_params: ExecutorParams {
            max_memory_pages: 0,
            stack_logical_max: 0,
            stack_native_max: 0,
            prechecking_max_memory: 0,
        },
        on_demand_queue_max_size: 0,
        on_demand_base_fee: 0,
        on_demand_fee_variability: 0,
        on_demand_target_queue_utilization: 0,
        on_demand_ttl: 0,
    }
}

impl Default for V8HostConfiguration {
    /// Returns the record `spec_default_v8` describes.
    fn default() -> (r: Self)
        ensures
            r == spec_default_v8(),
    {
        V8HostConfiguration {
            max_code_size: 0,
            max_head_data_size: 0,
            max_upward_queue_count: 0,
            max_upward_queue_size: 0,
            max_upward_message_size: 0,
            max_upward_message_num_per_candidate: 0,
            hrmp_max_message_num_per_candidate: 0,
            validation_upgrade_cooldown: 0,
            validation_upgrade_delay: 0,
            max_pov_size: 0,
            max_downward_message_size: 0,
            hrmp_sender_deposit: 0,
            hrmp_recipient_deposit: 0,
            hrmp_channel_max_capacity: 0,
            hrmp_channel_max_total_size: 0,
            hrmp_max_parachain_inbound_channels: 0,
            hrmp_max_parachain_outbound_channels: 0,
            hrmp_channel_max_message_size: 0,
            code_retention_period: 0,
            on_demand_cores: 0,
            on_demand_retries: 0,
            group_rotation_frequency: 0,
            paras_availability_period: 0,
            scheduling_lookahead: 0,
            max_validators_per_core: None,
            max_validators: None,
            dispute_period: 0,
            dispute_post_conclusion_acceptance_period: 0,
            no_show_slots: 0,
            n_delay_tranches: 0,
            zeroth_delay_tranche_width: 0,
            needed_approvals: 0,
            relay_vrf_modulo_samples: 0,
            pvf_voting_ttl: 0,
            minimum_validation_upgrade_delay: 0,
            async_backing_params: AsyncBackingParams { max_candidate_depth: 0, allowed_ancestry_len: 0 },
            executor_params: ExecutorParams {
                max_memory_pages: 0,
                stack_logical_max: 0,
                stack_native_max: 0,
                prechecking_max_memory: 0,
            },
            on_demand_queue_max_size: 0,
            on_demand_base_fee: 0,
            on_demand_fee_variability: 0,
            on_demand_target_queue_utilization: 0,
            on_demand_ttl: 0,
        }
    }
}

} // verus!
