//! The one capability the wait computation needs from the host: the
//! current local time of day, with second resolution.

use vstd::prelude::*;
use chrono::Timelike;
use crate::TimeOfDay;

verus! {

/// Relies on chrono's `Local::now` for the current local wall-clock time
/// and on its `Timelike` accessors: `hour` returns 0 to 23, `minute`
/// 0 to 59, and `second` 0 to 59 (a leap second is also reported as 59).
#[verifier::external_body]
pub(crate) fn now_time_of_day() -> (r: TimeOfDay)
    ensures
        r.wf(),
{
    let t = chrono::Local::now().time();
    TimeOfDay {
        hour: t.hour() as u8,
        minute: t.minute() as u8,
        second: t.second() as u8,
    }
}

} // verus!
