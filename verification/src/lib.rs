//! Scheduling core of a spaced-repetition simulator.
//!
//! The crate verifies the discrete heart of the simulation: which cards are
//! due, which of them a day's cost and count budgets admit, and how admitted
//! cards are rescheduled. Costs are carried in integer units and days as
//! whole numbers, so every decision rule here has an exact contract. The
//! floating-point memory model that produces those costs and intervals is
//! supplied by the caller.

use vstd::prelude::*;

pub mod admission;
pub mod config;
pub mod deck;
pub mod progress;
pub mod sampling;

verus! {

/// Number of weights a full parameter vector carries.
pub const PARAMETER_COUNT: usize = 17;

/// The failure conditions surfaced to callers: a parameter vector of an
/// invalid length, a cancellation signalled by the progress callback, and a
/// retention search that did not converge to a value inside its bounds.
#[derive(Clone, Copy, Debug, PartialEq, Eq)]
pub enum FSRSError {
    InvalidParameters,
    Interrupted,
    OptimalNotFound,
}

/// Decides whether a parameter vector of the given length is acceptable: an
/// empty vector stands for the default weights, a full vector carries exactly
/// [`PARAMETER_COUNT`] weights, and every other length is rejected before any
/// simulation runs.
pub fn check_parameter_count(len: usize) -> (r: Result<(), FSRSError>)
    ensures
        r is Ok <==> (len == 0 || len == PARAMETER_COUNT),
        r is Err ==> r == Result::<(), FSRSError>::Err(FSRSError::InvalidParameters),
{
    if len == 0 || len == PARAMETER_COUNT {
        Ok(())
    } else {
        Err(FSRSError::InvalidParameters)
    }
}

} // verus!
