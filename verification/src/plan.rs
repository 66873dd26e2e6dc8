//! The pipeline from raw arguments to a concrete plan: how long to wait
//! before the command is handed to the host for execution.

use vstd::prelude::*;
use crate::TimeOfDay;
use crate::clock::now_time_of_day;
use crate::command::{check_command, command_ok};
use crate::decimal::{spec_decimal, u64_to_decimal};
use crate::error::AppError;
use crate::time::{parse_time_spec, spec_time_spec, valid_time_spec, TimeSpec};
use crate::wait::{spec_wait_seconds, wait_seconds};

verus! {

/// From the raw argument list and the current time of day to the number
/// of seconds to wait, or the failure to report. The argument list is
/// taken whole: the program name first, then the time specification, then
/// the command tokens.
pub fn plan(args: &Vec<String>, now: &TimeOfDay) -> (r: Result<u64, AppError>)
    requires
        now.wf(),
    ensures
        r is Err <==> (args@.len() < 3 || !valid_time_spec(args@[1]@) || !command_ok(args@)),
        args@.len() < 3 ==> r == Err::<u64, AppError>(AppError::UsageError),
        args@.len() >= 3 && !valid_time_spec(args@[1]@) ==> r == Err::<u64, AppError>(
            AppError::InvalidTimeFormat,
        ),
        args@.len() >= 3 && valid_time_spec(args@[1]@) && !command_ok(args@) ==> r == Err::<
            u64,
            AppError,
        >(AppError::EncodingError),
        r is Ok ==> r->Ok_0 == spec_wait_seconds(spec_time_spec(args@[1]@), *now),
{
    if args.len() < 3 {
        return Err(AppError::UsageError);
    }
    let parsed = match parse_time_spec(args[1].as_str()) {
        Some(t) => t,
        None => {
            return Err(AppError::InvalidTimeFormat);
        },
    };
    let wait = wait_seconds(&parsed, now);
    if !check_command(args) {
        return Err(AppError::EncodingError);
    }
    Ok(wait)
}

/// `plan` against the clock: reads the current local time of day and
/// resolves the argument list with it. Whatever the clock returned, the
/// error cases are exactly those of `plan`; a relative specification's
/// wait does not depend on the clock at all.
pub fn plan_at_now(args: &Vec<String>) -> (r: Result<u64, AppError>)
    ensures
        r is Err <==> (args@.len() < 3 || !valid_time_spec(args@[1]@) || !command_ok(args@)),
        args@.len() < 3 ==> r == Err::<u64, AppError>(AppError::UsageError),
        args@.len() >= 3 && !valid_time_spec(args@[1]@) ==> r == Err::<u64, AppError>(
            AppError::InvalidTimeFormat,
        ),
        args@.len() >= 3 && valid_time_spec(args@[1]@) && !command_ok(args@) ==> r == Err::<
            u64,
            AppError,
        >(AppError::EncodingError),
        r is Ok ==> exists|now: TimeOfDay|
            now.wf() && r->Ok_0 == spec_wait_seconds(spec_time_spec(args@[1]@), now),
        r is Ok && spec_time_spec(args@[1]@) is Relative ==> r->Ok_0 == spec_time_spec(
            args@[1]@,
        )->Relative_0.spec_seconds_from_midnight(),
{
    let now = now_time_of_day();
    let r = plan(args, &now);
    proof {
        if r is Ok {
            assert(now.wf() && r->Ok_0 == spec_wait_seconds(spec_time_spec(args@[1]@), now));
        }
    }
    r
}

/// The progress notice: written only for waits of a minute or more.
pub open spec fn spec_progress_message(w: int) -> Seq<char> {
    "Waiting for "@ + spec_decimal(w as nat) + " seconds"@
}

/// The line to print before sleeping, if any: waits under 60 seconds are
/// silent, longer ones announce their full length in seconds.
pub fn progress_message(w: u64) -> (r: Option<String>)
    ensures
        r is Some <==> w >= 60,
        r is Some ==> r->0@ == spec_progress_message(w as int),
{
    if w < 60 {
        return None;
    }
    let mut s = String::from_str("Waiting for ");
    let digits = u64_to_decimal(w);
    s.append(digits.as_str());
    s.append(" seconds");
    Some(s)
}

} // verus!
