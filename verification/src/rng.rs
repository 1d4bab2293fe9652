//! Trusted access to the process-wide random number generator.
//!
//! Randomness enters the simulation only here: spawners roll a vehicle type,
//! the weather system rolls transitions and durations, and the event manager
//! rolls rare incidents. Every caller states what holds of any value these
//! functions may return.

use vstd::prelude::*;
use rand::Rng;

verus! {

/// Relies on rand's `Rng::gen_range` on `thread_rng`: a sample from the
/// half-open range `0..n` is below `n`. Nothing else is assumed of the value.
#[verifier::external_body]
pub(crate) fn rand_below(n: u32) -> (r: u32)
    requires
        n > 0,
    ensures
        r < n,
{
    rand::thread_rng().gen_range(0..n)
}

/// Relies on rand's `Rng::gen_range` on `thread_rng`: a sample from the
/// inclusive range `lo..=hi` lies within its bounds. Nothing else is assumed
/// of the value.
#[verifier::external_body]
pub(crate) fn rand_range_u64(lo: u64, hi: u64) -> (r: u64)
    requires
        lo <= hi,
    ensures
        lo <= r <= hi,
{
    rand::thread_rng().gen_range(lo..=hi)
}

} // verus!
