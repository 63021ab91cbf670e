//! Seeding rules for the Monte Carlo sampler.
//!
//! A sampler call runs the simulator [`SAMPLE_SIZE`] times; each repeat gets
//! a deterministic seed derived from its index, so a run can be reproduced
//! exactly from the repeat index alone.

use vstd::prelude::*;

verus! {

/// How many independent simulation runs one sampler call averages over.
pub const SAMPLE_SIZE: usize = 4;

/// The seed a simulation run falls back to when the caller supplies none.
pub const DEFAULT_SEED: u64 = 42;

/// The seed of the repeat with the given index: the default seed offset by
/// the index, so distinct repeats get distinct, reproducible seeds.
pub fn sample_seed(repeat: u64) -> (s: u64)
    requires
        repeat <= u64::MAX - DEFAULT_SEED,
    ensures
        s == repeat + DEFAULT_SEED,
{
    repeat + DEFAULT_SEED
}

} // verus!
