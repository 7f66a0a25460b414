//! How often recurring tasks run.
use vstd::prelude::*;

use crate::clock::Duration;

verus! {

pub type Interval = Duration;

/// The whole seconds in a span of time, rounded towards zero.
pub open spec fn whole_seconds(span: Duration) -> int {
    if span.nanoseconds >= 0 {
        span.nanoseconds as int / 1_000_000_000
    } else {
        -(-(span.nanoseconds as int) / 1_000_000_000)
    }
}

/// The seconds between two runs of a task: the whole seconds of its interval. A negative number
/// of seconds is counted down from the largest number of 64 bits.
pub open spec fn period(interval: Interval) -> int {
    if whole_seconds(interval) >= 0 {
        whole_seconds(interval)
    } else {
        whole_seconds(interval) + 0x1_0000_0000_0000_0000
    }
}

/// The seconds between two runs of a task.
pub fn period_seconds(interval: Interval) -> (r: u64)
    requires
        interval.in_range(),
    ensures
        r == period(interval),
{
    if interval.nanoseconds >= 0 {
        (interval.nanoseconds as u128 / 1_000_000_000) as u64
    } else {
        let behind: u128 = (-interval.nanoseconds) as u128 / 1_000_000_000;
        if behind == 0 {
            0
        } else {
            (0x1_0000_0000_0000_0000u128 - behind) as u64
        }
    }
}

/// A task waits for the whole seconds of its interval: no longer than the interval, and by less
/// than a second shorter.
pub proof fn law_period_is_the_interval_in_seconds(interval: Interval, r: u64)
    requires
        interval.nanoseconds >= 0,
        call_ensures(period_seconds, (interval,), r),
    ensures
        r * 1_000_000_000 <= interval.nanoseconds < (r + 1) * 1_000_000_000,
{
}

/// A negative interval counts as many whole seconds below the largest number of 64 bits, plus
/// one, as it goes back.
pub proof fn law_negative_period_wraps_round(interval: Interval, r: u64)
    requires
        interval.nanoseconds < 0,
        call_ensures(period_seconds, (interval,), r),
    ensures
        -1_000_000_000 < interval.nanoseconds ==> r == 0,
        interval.nanoseconds <= -1_000_000_000 ==> {
            let behind = 0x1_0000_0000_0000_0000 - r;
            behind * 1_000_000_000 <= -interval.nanoseconds < (behind + 1) * 1_000_000_000
        },
{
}

} // verus!
