//! Presentation times.
//!
//! A presentation time is a count of ticks of the stream's time base, which
//! runs at 90 kHz. In seconds it is the rational `ticks / TIMEBASE`; its
//! whole seconds and the ticks beyond them give it exactly.

use vstd::prelude::*;

verus! {

/// The number of ticks in one second.
pub const TIMEBASE: u64 = 90_000;

/// The whole seconds in `ticks`.
pub fn whole_seconds(ticks: u64) -> (s: u64)
    ensures
        s == ticks / TIMEBASE,
        s * TIMEBASE <= ticks < (s + 1) * TIMEBASE,
{
    ticks / TIMEBASE
}

/// The ticks in `ticks` beyond its whole seconds.
pub fn subsecond_ticks(ticks: u64) -> (t: u64)
    ensures
        t == ticks % TIMEBASE,
        t < TIMEBASE,
        (ticks / TIMEBASE) * TIMEBASE + t == ticks,
{
    ticks % TIMEBASE
}

} // verus!
