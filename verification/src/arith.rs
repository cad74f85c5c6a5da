//! Saturating counter arithmetic and the global time bound.
use vstd::prelude::*;

verus! {

/// Upper bound on every single time quantity the simulator handles, in
/// microseconds: tick thresholds, fault durations and per-iteration time
/// deltas all stay at or below this bound, so the sum of two of them still
/// fits easily in a `u128`.
pub const MAX_TIME_US: u128 = 0xFFFF_FFFF_FFFF_FFFF;

/// `a + b`, capped at `max`.
pub open spec fn specSatAdd(a: int, b: int, max: int) -> int {
    if a + b <= max {
        a + b
    } else {
        max
    }
}

/// Saturating add on `usize` counters.  Production counters only ever grow;
/// they stop at `usize::MAX` instead of wrapping.
pub fn satAddUsize(a: usize, b: usize) -> (r: usize)
    ensures
        r == specSatAdd(a as int, b as int, usize::MAX as int),
        r >= a,
        r >= b,
{
    if a <= usize::MAX - b {
        a + b
    } else {
        usize::MAX
    }
}

/// Saturating add on `u128` clocks.
pub fn satAddU128(a: u128, b: u128) -> (r: u128)
    ensures
        r == specSatAdd(a as int, b as int, u128::MAX as int),
        r >= a,
        r >= b,
{
    if a <= u128::MAX - b {
        a + b
    } else {
        u128::MAX
    }
}

} // verus!
