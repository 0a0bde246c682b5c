use vstd::prelude::*;

use crate::config::{
    SessionIndex, V8HostConfiguration, V9HostConfiguration, LEGACY_MIN_BACKING_VOTES,
};

verus! {

/// The single source of truth for the v8-to-v9 record mapping: every shared
/// field is copied verbatim, field by field so that the mapping stays
/// auditable by direct inspection, and the one new field is set to
/// `LEGACY_MIN_BACKING_VOTES`, whatever the input holds.
pub open spec fn spec_translate(pre: V8HostConfiguration) -> V9HostConfiguration {
    V9HostConfiguration {
        max_code_size: pre.max_code_size,
        max_head_data_size: pre.max_head_data_size,
        max_upward_queue_count: pre.max_upward_queue_count,
        max_upward_queue_size: pre.max_upward_queue_size,
        max_upward_message_size: pre.max_upward_message_size,
        max_upward_message_num_per_candidate: pre.max_upward_message_num_per_candidate,
        hrmp_max_message_num_per_candidate: pre.hrmp_max_message_num_per_candidate,
        validation_upgrade_cooldown: pre.validation_upgrade_cooldown,
        validation_upgrade_delay: pre.validation_upgrade_delay,
        max_pov_size: pre.max_pov_size,
        max_downward_message_size: pre.max_downward_message_size,
        hrmp_sender_deposit: pre.hrmp_sender_deposit,
        hrmp_recipient_deposit: pre.hrmp_recipient_deposit,
        hrmp_channel_max_capacity: pre.hrmp_channel_max_capacity,
        hrmp_channel_max_total_size: pre.hrmp_channel_max_total_size,
        hrmp_max_parachain_inbound_channels: pre.hrmp_max_parachain_inbound_channels,
        hrmp_max_parachain_outbound_channels: pre.hrmp_max_parachain_outbound_channels,
        hrmp_channel_max_message_size: pre.hrmp_channel_max_message_size,
        code_retention_period: pre.code_retention_period,
        on_demand_cores: pre.on_demand_cores,
        on_demand_retries: pre.on_demand_retries,
        group_rotation_frequency: pre.group_rotation_frequency,
        paras_availability_period: pre.paras_availability_period,
        scheduling_lookahead: pre.scheduling_lookahead,
        max_validators_per_core: pre.max_validators_per_core,
        max_validators: pre.max_validators,
        dispute_period: pre.dispute_period,
        dispute_post_conclusion_acceptance_period: pre.dispute_post_conclusion_acceptance_period,
        no_show_slots: pre.no_show_slots,
        n_delay_tranches: pre.n_delay_tranches,
        zeroth_delay_tranche_width: pre.zeroth_delay_tranche_width,
        needed_approvals: pre.needed_approvals,
        relay_vrf_modulo_samples: pre.relay_vrf_modulo_samples,
        pvf_voting_ttl: pre.pvf_voting_ttl,
        minimum_validation_upgrade_delay: pre.minimum_validation_upgrade_delay,
        async_backing_params: pre.async_backing_params,
        executor_params: pre.executor_params,
        on_demand_queue_max_size: pre.on_demand_queue_max_size,
        on_demand_base_fee: pre.on_demand_base_fee,
        on_demand_fee_variability: pre.on_demand_fee_variability,
        on_demand_target_queue_utilization: pre.on_demand_target_queue_utilization,
        on_demand_ttl: pre.on_demand_ttl,
        minimum_backing_votes: LEGACY_MIN_BACKING_VOTES,
    }
}

/// Translates a schema-v8 record to its schema-v9 counterpart. Pure and
/// total: translation cannot fail on any input.
pub fn translate(pre: V8HostConfiguration) -> (post: V9HostConfiguration)
    ensures
        post == spec_translate(pre),
{
    V9HostConfiguration {
        max_code_size: pre.max_code_size,
        max_head_data_size: pre.max_head_data_size,
        max_upward_queue_count: pre.max_upward_queue_count,
        max_upward_queue_size: pre.max_upward_queue_size,
        max_upward_message_size: pre.max_upward_message_size,
        max_upward_message_num_per_candidate: pre.max_upward_message_num_per_candidate,
        hrmp_max_message_num_per_candidate: pre.hrmp_max_message_num_per_candidate,
        validation_upgrade_cooldown: pre.validation_upgrade_cooldown,
        validation_upgrade_delay: pre.validation_upgrade_delay,
        max_pov_size: pre.max_pov_size,
        max_downward_message_size: pre.max_downward_message_size,
        hrmp_sender_deposit: pre.hrmp_sender_deposit,
        hrmp_recipient_deposit: pre.hrmp_recipient_deposit,
        hrmp_channel_max_capacity: pre.hrmp_channel_max_capacity,
        hrmp_channel_max_total_size: pre.hrmp_channel_max_total_size,
        hrmp_max_parachain_inbound_channels: pre.hrmp_max_parachain_inbound_channels,
        hrmp_max_parachain_outbound_channels: pre.hrmp_max_parachain_outbound_channels,
        hrmp_channel_max_message_size: pre.hrmp_channel_max_message_size,
        code_retention_period: pre.code_retention_period,
        on_demand_cores: pre.on_demand_cores,
        on_demand_retries: pre.on_demand_retries,
        group_rotation_frequency: pre.group_rotation_frequency,
        paras_availability_period: pre.paras_availability_period,
        scheduling_lookahead: pre.scheduling_lookahead,
        max_validators_per_core: pre.max_validators_per_core,
        max_validators: pre.max_validators,
        dispute_period: pre.dispute_period,
        dispute_post_conclusion_acceptance_period: pre.dispute_post_conclusion_acceptance_period,
        no_show_slots: pre.no_show_slots,
        n_delay_tranches: pre.n_delay_tranches,
        zeroth_delay_tranche_width: pre.zeroth_delay_tranche_width,
        needed_approvals: pre.needed_approvals,
        relay_vrf_modulo_samples: pre.relay_vrf_modulo_samples,
        pvf_voting_ttl: pre.pvf_voting_ttl,
        minimum_validation_upgrade_delay: pre.minimum_validation_upgrade_delay,
        async_backing_params: pre.async_backing_params,
        executor_params: pre.executor_params,
        on_demand_queue_max_size: pre.on_demand_queue_max_size,
        on_demand_base_fee: pre.on_demand_base_fee,
        on_demand_fee_variability: pre.on_demand_fee_variability,
        on_demand_target_queue_utilization: pre.on_demand_target_queue_utilization,
        on_demand_ttl: pre.on_demand_ttl,
        minimum_backing_votes: LEGACY_MIN_BACKING_VOTES,
    }
}

/// Field fidelity: for every schema-v8 record, each shared field of the
/// translated record equals the corresponding field of the input.
pub proof fn lemma_translate_preserves_shared_fields(pre: V8HostConfiguration)
    ensures
        spec_translate(pre).max_code_size == pre.max_code_size,
        spec_translate(pre).max_head_data_size == pre.max_head_data_size,
        spec_translate(pre).max_upward_queue_count == pre.max_upward_queue_count,
        spec_translate(pre).max_upward_queue_size == pre.max_upward_queue_size,
        spec_translate(pre).max_upward_message_size == pre.max_upward_message_size,
        spec_translate(pre).max_upward_message_num_per_candidate == pre.max_upward_message_num_per_candidate,
        spec_translate(pre).hrmp_max_message_num_per_candidate == pre.hrmp_max_message_num_per_candidate,
        spec_translate(pre).validation_upgrade_cooldown == pre.validation_upgrade_cooldown,
        spec_translate(pre).validation_upgrade_delay == pre.validation_upgrade_delay,
        spec_translate(pre).max_pov_size == pre.max_pov_size,
        spec_translate(pre).max_downward_message_size == pre.max_downward_message_size,
        spec_translate(pre).hrmp_sender_deposit == pre.hrmp_sender_deposit,
        spec_translate(pre).hrmp_recipient_deposit == pre.hrmp_recipient_deposit,
        spec_translate(pre).hrmp_channel_max_capacity == pre.hrmp_channel_max_capacity,
        spec_translate(pre).hrmp_channel_max_total_size == pre.hrmp_channel_max_total_size,
        spec_translate(pre).hrmp_max_parachain_inbound_channels == pre.hrmp_max_parachain_inbound_channels,
        spec_translate(pre).hrmp_max_parachain_outbound_channels == pre.hrmp_max_parachain_outbound_channels,
        spec_translate(pre).hrmp_channel_max_message_size == pre.hrmp_channel_max_message_size,
        spec_translate(pre).code_retention_period == pre.code_retention_period,
        spec_translate(pre).on_demand_cores == pre.on_demand_cores,
        spec_translate(pre).on_demand_retries == pre.on_demand_retries,
        spec_translate(pre).group_rotation_frequency == pre.group_rotation_frequency,
        spec_translate(pre).paras_availability_period == pre.paras_availability_period,
        spec_translate(pre).scheduling_lookahead == pre.scheduling_lookahead,
        spec_translate(pre).max_validators_per_core == pre.max_validators_per_core,
        spec_translate(pre).max_validators == pre.max_validators,
        spec_translate(pre).dispute_period == pre.dispute_period,
        spec_translate(pre).dispute_post_conclusion_acceptance_period == pre.dispute_post_conclusion_acceptance_period,
        spec_translate(pre).no_show_slots == pre.no_show_slots,
        spec_translate(pre).n_delay_tranches == pre.n_delay_tranches,
        spec_translate(pre).zeroth_delay_tranche_width == pre.zeroth_delay_tranche_width,
        spec_translate(pre).needed_approvals == pre.needed_approvals,
        spec_translate(pre).relay_vrf_modulo_samples == pre.relay_vrf_modulo_samples,
        spec_translate(pre).pvf_voting_ttl == pre.pvf_voting_ttl,
        spec_translate(pre).minimum_validation_upgrade_delay == pre.minimum_validation_upgrade_delay,
        spec_translate(pre).async_backing_params == pre.async_backing_params,
        spec_translate(pre).executor_params == pre.executor_params,
        spec_translate(pre).on_demand_queue_max_size == pre.on_demand_queue_max_size,
        spec_translate(pre).on_demand_base_fee == pre.on_demand_base_fee,
        spec_translate(pre).on_demand_fee_variability == pre.on_demand_fee_variability,
        spec_translate(pre).on_demand_target_queue_utilization == pre.on_demand_target_queue_utilization,
        spec_translate(pre).on_demand_ttl == pre.on_demand_ttl,
{
}

/// New-field constant: for every schema-v8 record, the translated record's
/// `minimum_backing_votes` field equals `LEGACY_MIN_BACKING_VOTES`,
/// independent of the input.
pub proof fn lemma_translate_new_field_constant(pre: V8HostConfiguration)
    ensures
        spec_translate(pre).minimum_backing_votes == LEGACY_MIN_BACKING_VOTES,
{
}

/// The pending list the migration writes, as a function of the pending list
/// it read: each entry keeps its activation key and its position, and its
/// record is translated.
pub open spec fn spec_migrated_pending(
    src: Seq<(SessionIndex, V8HostConfiguration)>,
) -> Seq<(SessionIndex, V9HostConfiguration)> {
    src.map_values(|e: (SessionIndex, V8HostConfiguration)| (e.0, spec_translate(e.1)))
}

} // verus!
