//! Turning a resolved time specification into a number of seconds to wait.

use vstd::prelude::*;
use crate::TimeOfDay;
use crate::time::TimeSpec;

verus! {

/// Seconds to wait. A relative specification is its own duration measured
/// from midnight. An absolute target still ahead today is reached by the
/// plain difference; one at or before the current second rolls over to the
/// same time tomorrow.
pub open spec fn spec_wait_seconds(t: TimeSpec, now: TimeOfDay) -> int {
    match t {
        TimeSpec::Relative(d) => d.spec_seconds_from_midnight(),
        TimeSpec::Absolute(a) => {
            let target = a.spec_seconds_from_midnight();
            let current = now.spec_seconds_from_midnight();
            if target > current {
                target - current
            } else {
                target + 86400 - current
            }
        },
    }
}

pub fn wait_seconds(t: &TimeSpec, now: &TimeOfDay) -> (r: u64)
    requires
        t.wf(),
        now.wf(),
    ensures
        r == spec_wait_seconds(*t, *now),
        r <= 86400,
{
    match t {
        TimeSpec::Relative(d) => d.seconds_from_midnight() as u64,
        TimeSpec::Absolute(a) => {
            let target = a.seconds_from_midnight();
            let current = now.seconds_from_midnight();
            if target > current {
                (target - current) as u64
            } else {
                (target + 86400 - current) as u64
            }
        },
    }
}

/// A relative specification waits for exactly its own duration; the
/// current time plays no part in the result.
pub proof fn lemma_relative_wait_independent_of_now(d: TimeOfDay, now1: TimeOfDay, now2: TimeOfDay)
    ensures
        spec_wait_seconds(TimeSpec::Relative(d), now1) == d.spec_seconds_from_midnight(),
        spec_wait_seconds(TimeSpec::Relative(d), now1) == spec_wait_seconds(
            TimeSpec::Relative(d),
            now2,
        ),
{
}

/// An absolute target equal to the current time, to the second, counts as
/// already passed and rolls over to the next day: a full day's wait.
pub proof fn lemma_absolute_at_now_rolls_over(now: TimeOfDay)
    requires
        now.wf(),
    ensures
        spec_wait_seconds(TimeSpec::Absolute(now), now) == 86400,
{
}

/// An absolute target never yields a zero or negative wait: the result
/// always lies between one second and one day.
pub proof fn lemma_absolute_wait_positive(a: TimeOfDay, now: TimeOfDay)
    requires
        a.wf(),
        now.wf(),
    ensures
        1 <= spec_wait_seconds(TimeSpec::Absolute(a), now) <= 86400,
{
}

} // verus!
