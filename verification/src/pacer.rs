//! Frame pacing policy: how a measured frame duration becomes the next
//! frame's step.

use vstd::prelude::*;

verus! {

/// Shortest step that is ever published: 1/5000 of a second, in nanoseconds.
pub const MIN_DELTA_NANOS: u64 = 200_000;

/// Longest step that is ever published: 1/10 of a second, in nanoseconds.
pub const MAX_DELTA_NANOS: u64 = 100_000_000;

/// Step of the very first frame, before anything was measured: 1/60 of a
/// second, rounded down to whole nanoseconds.
pub const BOOTSTRAP_DELTA_NANOS: u64 = 16_666_666;

/// The value of `elapsed` brought into the interval of admissible steps.
pub open spec fn clamped_delta(elapsed: int) -> int {
    if elapsed < MIN_DELTA_NANOS {
        MIN_DELTA_NANOS as int
    } else if elapsed > MAX_DELTA_NANOS {
        MAX_DELTA_NANOS as int
    } else {
        elapsed
    }
}

/// Turns the wall time measured over one frame into the step of the next
/// frame, so that neither a stalled nor a degenerate frame reaches the
/// simulation.
pub fn clamp_delta(elapsed_nanos: u64) -> (delta: u64)
    ensures
        delta == clamped_delta(elapsed_nanos as int),
        MIN_DELTA_NANOS <= delta <= MAX_DELTA_NANOS,
{
    if elapsed_nanos < MIN_DELTA_NANOS {
        MIN_DELTA_NANOS
    } else if elapsed_nanos > MAX_DELTA_NANOS {
        MAX_DELTA_NANOS
    } else {
        elapsed_nanos
    }
}

} // verus!
