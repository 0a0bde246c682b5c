use host_config_migration::config::V8HostConfiguration;
use host_config_migration::cost::{read_cost, read_write_cost, Cost};
use host_config_migration::migration::{
    load_active, migrate_active, migrate_pending, MigrateToV9, MigrationError,
};
use host_config_migration::storage::Storage;
use host_config_migration::translate::translate;

fn sample_record(seed: u32) -> V8HostConfiguration {
    V8HostConfiguration {
        needed_approvals: seed,
        max_pov_size: seed + 7,
        hrmp_recipient_deposit: u128::from(seed) + 1_000_000,
        ..Default::default()
    }
}

// Idempotent gate: with any marker other than the expected prior version,
// the version gate mutates nothing and charges the minimal cost of one read,
// regardless of what the record slots hold.
#[test]
fn gate_is_a_no_op_on_version_mismatch() {
    let mut storage = Storage {
        version: 9,
        v8_active: Some(sample_record(11)),
        v8_pending: Some(vec![(4, sample_record(12))]),
        v9_active: None,
        v9_pending: None,
    };
    let before = storage.clone();

    let cost = MigrateToV9::on_runtime_upgrade(&mut storage);

    assert_eq!(cost, Cost { reads: 1, writes: 0 });
    assert_eq!(storage, before);
}

// Cost accounting: one active record and m pending entries cost
// (reads = 1 + m, writes = 1 + m), and the marker is advanced.
#[test]
fn gate_migrates_and_charges_per_slot() {
    let mut storage = Storage {
        version: 8,
        v8_active: Some(sample_record(21)),
        v8_pending: Some(vec![(1, sample_record(22)), (2, sample_record(23))]),
        v9_active: None,
        v9_pending: None,
    };

    let cost = MigrateToV9::on_runtime_upgrade(&mut storage);

    assert_eq!(cost, Cost { reads: 3, writes: 3 });
    assert_eq!(storage.version, 9);
    assert!(storage.v9_active.is_some());
    // The old-schema slots are left untouched.
    assert_eq!(storage.v8_active, Some(sample_record(21)));
    assert_eq!(
        storage.v8_pending,
        Some(vec![(1, sample_record(22)), (2, sample_record(23))])
    );
}

// Defensive default: an absent active slot migrates to the translation of
// the default record, and nothing fails.
#[test]
fn absent_active_record_migrates_to_translated_default() {
    let mut storage = Storage {
        version: 8,
        v8_active: None,
        v8_pending: None,
        v9_active: None,
        v9_pending: None,
    };

    migrate_active(&mut storage);

    assert_eq!(
        storage.v9_active,
        Some(translate(V8HostConfiguration::default()))
    );
}

#[test]
fn load_active_returns_the_stored_record() {
    let storage = Storage {
        version: 8,
        v8_active: Some(sample_record(31)),
        v8_pending: None,
        v9_active: None,
        v9_pending: None,
    };
    assert_eq!(load_active(&storage), sample_record(31));
}

// Empty-pending: an absent pending slot migrates to a written, empty list
// (not absence), and zero entries are reported.
#[test]
fn absent_pending_list_migrates_to_written_empty_list() {
    let mut storage = Storage {
        version: 8,
        v8_active: None,
        v8_pending: None,
        v9_active: None,
        v9_pending: None,
    };

    let n: usize = migrate_pending(&mut storage);

    assert_eq!(n, 0);
    assert_eq!(storage.v9_pending, Some(Vec::new()));
}

// Pending list order and pairing: every entry keeps its activation key and
// its position; only the record is translated.
#[test]
fn pending_list_order_and_pairing_preserved() {
    let r1 = sample_record(41);
    let r2 = sample_record(42);
    let r3 = sample_record(43);
    let mut storage = Storage {
        version: 8,
        v8_active: None,
        v8_pending: Some(vec![(300, r1), (100, r2), (200, r3)]),
        v9_active: None,
        v9_pending: None,
    };

    let n: usize = migrate_pending(&mut storage);

    assert_eq!(n, 3);
    assert_eq!(
        storage.v9_pending,
        Some(vec![(300, translate(r1)), (100, translate(r2)), (200, translate(r3))])
    );
}

#[test]
fn cost_helpers_report_exact_amounts() {
    assert_eq!(read_cost(1), Cost { reads: 1, writes: 0 });
    assert_eq!(read_write_cost(5), Cost { reads: 5, writes: 5 });
    assert_eq!(read_write_cost(0), Cost { reads: 0, writes: 0 });
}

#[test]
fn pre_upgrade_captures_no_state() {
    assert_eq!(MigrateToV9::pre_upgrade(), Ok(Vec::new()));
}

#[test]
fn post_upgrade_checks_the_version_marker() {
    let migrated = Storage {
        version: 9,
        v8_active: None,
        v8_pending: None,
        v9_active: None,
        v9_pending: None,
    };
    assert_eq!(MigrateToV9::post_upgrade(&migrated, Vec::new()), Ok(()));

    let stale = Storage { version: 8, ..migrated };
    assert_eq!(
        MigrateToV9::post_upgrade(&stale, Vec::new()),
        Err(MigrationError::StorageVersionTooLow)
    );
}
