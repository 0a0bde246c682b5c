use vstd::prelude::*;

use crate::config::{spec_default_v8, SessionIndex, V8HostConfiguration, V9HostConfiguration};

verus! {

/// The storage slots this migration touches, one field per key of the
/// persisted key/value store. A slot holds `None` where the key was never
/// written (or its bytes no longer decode as the slot's record type, which
/// the store reports the same way). Records are tagged by schema version:
/// the v8 keys are only read, the v9 keys and the version marker are only
/// written, so the old data stays in place until a later step prunes it.
#[derive(Clone, PartialEq, Eq, Debug)]
pub struct Storage {
    /// The schema-version marker of the record family.
    pub version: u16,
    /// The active configuration under its schema-v8 key.
    pub v8_active: Option<V8HostConfiguration>,
    /// The pending configurations, in activation order, under their schema-v8 key.
    pub v8_pending: Option<Vec<(SessionIndex, V8HostConfiguration)>>,
    /// The active configuration under its schema-v9 key.
    pub v9_active: Option<V9HostConfiguration>,
    /// The pending configurations, in activation order, under their schema-v9 key.
    pub v9_pending: Option<Vec<(SessionIndex, V9HostConfiguration)>>,
}

/// The record the migration translates as the active configuration: the
/// stored schema-v8 record, or the default record where the slot is absent.
pub open spec fn active_source(s: Storage) -> V8HostConfiguration {
    match s.v8_active {
        Some(c) => c,
        None => spec_default_v8(),
    }
}

/// The list of pending entries the migration translates: the stored
/// schema-v8 list, or the empty list where the slot is absent (absence of
/// pending work is a legitimate state, not a fault).
pub open spec fn pending_source(s: Storage) -> Seq<(SessionIndex, V8HostConfiguration)> {
    match s.v8_pending {
        Some(v) => v@,
        None => Seq::<(SessionIndex, V8HostConfiguration)>::empty(),
    }
}

} // verus!
