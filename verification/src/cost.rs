use vstd::prelude::*;

verus! {

/// The resource cost of a migration, charged against the execution budget
/// of the state transition that ran it: how many storage slots were read
/// and how many were written.
#[derive(Clone, Copy, PartialEq, Eq, Debug)]
pub struct Cost {
    pub reads: u64,
    pub writes: u64,
}

/// The cost of reading `n` storage slots and writing nothing.
pub fn read_cost(n: u64) -> (c: Cost)
    ensures
        c.reads == n,
        c.writes == 0,
{
    Cost { reads: n, writes: 0 }
}

/// The cost of reading and re-writing `n` storage slots: one read and one
/// write per migrated record, purely additive.
pub fn read_write_cost(n: u64) -> (c: Cost)
    ensures
        c.reads == n,
        c.writes == n,
{
    Cost { reads: n, writes: n }
}

} // verus!
