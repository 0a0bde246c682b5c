//! A verified schema migration for a family of persisted host-configuration
//! records: when the stored schema-version marker says the records are still
//! at version 8, every record is translated to its version-9 shape — each
//! shared field copied verbatim, the one new field set to a named constant —
//! and written back under the version-9 keys, exactly once, with the cost of
//! the work reported as a (reads, writes) pair.

pub mod config;
pub mod cost;
pub mod migration;
pub mod storage;
pub mod translate;
