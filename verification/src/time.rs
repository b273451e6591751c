//! Time: converting counter ticks to microseconds and arming the timer.
use vstd::prelude::*;
use crate::config::MTIME_FREQUENCY;

verus! {

/// Counter ticks per microsecond.
pub const TICKS_PER_US: usize = MTIME_FREQUENCY / 1_000_000;

/// The time in microseconds given the value `ticks` read from the `time`
/// counter.
pub fn get_time(ticks: usize) -> (us: usize)
    ensures
        us == ticks / (MTIME_FREQUENCY / 1_000_000),
{
    ticks / TICKS_PER_US
}

/// The counter value at which the next timer interrupt is due: `interval`
/// microseconds after the counter value `now_ticks`.
pub fn set_next_timer(now_ticks: usize, interval: usize) -> (deadline: u64)
    requires
        now_ticks + TICKS_PER_US * interval <= usize::MAX,
    ensures
        deadline == now_ticks + TICKS_PER_US * interval,
{
    let next_time = now_ticks + TICKS_PER_US * interval;
    next_time as u64
}

} // verus!
