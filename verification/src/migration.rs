use vstd::prelude::*;

use crate::config::{spec_default_v8, SessionIndex, V8HostConfiguration, V9HostConfiguration};
use crate::cost::{read_cost, read_write_cost, Cost};
use crate::storage::{active_source, pending_source, Storage};
use crate::translate::{spec_migrated_pending, spec_translate, translate};

verus! {

/// What the offline verification hook reports when the migration left the
/// schema-version marker behind.
#[derive(Clone, Copy, PartialEq, Eq, Debug)]
pub enum MigrationError {
    /// The schema-version marker was not advanced to v9.
    StorageVersionTooLow,
}

/// Defensive loader for the active record: returns the stored schema-v8
/// record, or the default record where the slot is absent or no longer
/// decodes — a missing optional-looking slot must never abort the upgrade.
pub fn load_active(s: &Storage) -> (r: V8HostConfiguration)
    ensures
        r == active_source(*s),
{
    match s.v8_active {
        Some(c) => c,
        None => V8HostConfiguration::default(),
    }
}

/// Defensive default: where the active slot is absent, the record the
/// migration translates is exactly the default schema-v8 record, so the
/// migrated active record equals the translation of the default.
pub proof fn lemma_defensive_default(s: Storage)
    requires
        s.v8_active is None,
    ensures
        active_source(s) == spec_default_v8(),
{
}

/// An absent pending slot is read as the empty list, and the empty list
/// migrates to the empty list — written out, so that "migrated and empty"
/// is distinguishable from "never migrated".
pub proof fn lemma_absent_pending_migrates_to_empty(s: Storage)
    requires
        s.v8_pending is None,
    ensures
        pending_source(s) == Seq::<(SessionIndex, V8HostConfiguration)>::empty(),
        spec_migrated_pending(pending_source(s))
            == Seq::<(SessionIndex, V9HostConfiguration)>::empty(),
{
    assert(spec_migrated_pending(pending_source(s))
        =~= Seq::<(SessionIndex, V9HostConfiguration)>::empty());
}

/// Migrates the active record: loads the schema-v8 record defensively,
/// translates it, and writes the result under the schema-v9 key. Touches
/// nothing else.
pub fn migrate_active(s: &mut Storage)
    ensures
        final(s).v9_active == Some(spec_translate(active_source(*old(s)))),
        final(s).version == old(s).version,
        final(s).v8_active == old(s).v8_active,
        final(s).v8_pending == old(s).v8_pending,
        final(s).v9_pending == old(s).v9_pending,
{
    let v8 = load_active(s);
    let v9 = translate(v8);
    s.v9_active = Some(v9);
}

/// Migrates the pending list: reads the schema-v8 list (an absent slot is
/// the empty list), translates every record while keeping its activation
/// key and its position, and writes the full result — even when empty —
/// under the schema-v9 key. Returns the number of entries processed, for
/// cost accounting. Touches nothing else.
pub fn migrate_pending(s: &mut Storage) -> (n: usize)
    ensures
        n == pending_source(*old(s)).len(),
        final(s).v9_pending is Some,
        (final(s).v9_pending->0)@ == spec_migrated_pending(pending_source(*old(s))),
        final(s).version == old(s).version,
        final(s).v8_active == old(s).v8_active,
        final(s).v8_pending == old(s).v8_pending,
        final(s).v9_active == old(s).v9_active,
{
    let mut out: Vec<(SessionIndex, V9HostConfiguration)> = Vec::new();
    match &s.v8_pending {
        None => {},
        Some(src) => {
            let mut i: usize = 0;
            while i < src.len()
                invariant
                    i <= src.len(),
                    out@.len() == i,
                    forall|j: int|
                        0 <= j < i ==> out@[j] == (src@[j].0, spec_translate(src@[j].1)),
                decreases src.len() - i,
            {
                let entry = src[i];
                out.push((entry.0, translate(entry.1)));
                i = i + 1;
            }
        },
    }
    proof {
        assert(out@ =~= spec_migrated_pending(pending_source(*s)));
    }
    let n = out.len();
    s.v9_pending = Some(out);
    n
}

/// Migrates the whole record family from schema v8 to schema v9: the active
/// record and every pending entry, in order. Returns the cost of the work:
/// one read and one write for the active record and for each pending entry.
/// The version marker is left to the version gate.
pub fn migrate_to_v9(s: &mut Storage) -> (cost: Cost)
    requires
        pending_source(*old(s)).len() < usize::MAX,
    ensures
        final(s).v9_active == Some(spec_translate(active_source(*old(s)))),
        final(s).v9_pending is Some,
        (final(s).v9_pending->0)@ == spec_migrated_pending(pending_source(*old(s))),
        final(s).version == old(s).version,
        final(s).v8_active == old(s).v8_active,
        final(s).v8_pending == old(s).v8_pending,
        cost.reads == pending_source(*old(s)).len() + 1,
        cost.writes == pending_source(*old(s)).len() + 1,
{
    migrate_active(s);
    let n = migrate_pending(s);
    let num_configs: u64 = (n as u64) + 1;
    read_write_cost(num_configs)
}

/// The migration of the host-configuration records from schema version 8 to
/// schema version 9, behind its idempotence gate.
pub struct MigrateToV9;

impl MigrateToV9 {
    /// Dry-run hook run before the upgrade: captures no state.
    pub fn pre_upgrade() -> (r: Result<Vec<u8>, MigrationError>)
        ensures
            r is Ok,
            (r->Ok_0)@ == Seq::<u8>::empty(),
    {
        Ok(Vec::new())
    }

    /// The version gate: runs the migration only where the schema-version
    /// marker holds the expected prior version 8, then advances the marker
    /// to 9 and reports the full cost. On any other marker it mutates
    /// nothing — a stale invocation is a legitimate no-op, not an error —
    /// and reports the minimal cost of the one read that decided.
    pub fn on_runtime_upgrade(s: &mut Storage) -> (cost: Cost)
        requires
            old(s).version == 8 ==> pending_source(*old(s)).len() < usize::MAX,
        ensures
            old(s).version != 8 ==> *final(s) == *old(s),
            old(s).version != 8 ==> cost.reads == 1 && cost.writes == 0,
            old(s).version == 8 ==> final(s).version == 9,
            old(s).version == 8 ==> final(s).v9_active == Some(
                spec_translate(active_source(*old(s))),
            ),
            old(s).version == 8 ==> final(s).v9_pending is Some,
            old(s).version == 8 ==> (final(s).v9_pending->0)@ == spec_migrated_pending(
                pending_source(*old(s)),
            ),
            old(s).version == 8 ==> final(s).v8_active == old(s).v8_active,
            old(s).version == 8 ==> final(s).v8_pending == old(s).v8_pending,
            old(s).version == 8 ==> cost.reads == pending_source(*old(s)).len() + 1,
            old(s).version == 8 ==> cost.writes == pending_source(*old(s)).len() + 1,
    {
        if s.version == 8 {
            let cost = migrate_to_v9(s);
            s.version = 9;
            cost
        } else {
            read_cost(1)
        }
    }

    /// Dry-run hook run after the upgrade: reports an error if and only if
    /// the schema-version marker was not advanced to at least 9.
    pub fn post_upgrade(s: &Storage, _state: Vec<u8>) -> (r: Result<(), MigrationError>)
        ensures
            r is Ok <==> s.version >= 9,
            r is Err ==> r->Err_0 == MigrationError::StorageVersionTooLow,
    {
        if s.version >= 9 {
            Ok(())
        } else {
            Err(MigrationError::StorageVersionTooLow)
        }
    }
}

} // verus!
