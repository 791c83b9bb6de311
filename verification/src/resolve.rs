//! The duration resolver: from the current moment and a target time of day
//! to the whole minutes remaining until the target occurs today.

use vstd::prelude::*;
use crate::clock::london_instant;
use crate::clock::london_lookup;
use crate::model::Moment;
use crate::model::ScheduleError;
use crate::model::Target;
use crate::model::valid_hms;

verus! {

/// Whole minutes between two instants given as epoch seconds, truncated.
pub open spec fn minutes_between(start_sec: int, end_sec: int) -> int {
    (end_sec - start_sec) / 60
}

/// The outcome of resolving a target against a moment's calendar date: the
/// end instant in epoch seconds, or nothing when the target does not occur
/// as a single local time on that date.
pub open spec fn resolution_of(now: Moment, target: Target) -> Option<int> {
    london_lookup(
        now.year as int,
        now.month as int,
        now.day as int,
        target.hour as int,
        target.min as int,
        target.sec as int,
    )
}

/// Given an already-resolved end instant, the whole minutes remaining from
/// `now_sec` until it; the end must lie strictly in the future, else
/// `TargetNotInFuture`.
pub fn duration_from_instants(now_sec: i64, end_sec: i64) -> (r: Result<u64, ScheduleError>)
    ensures
        end_sec > now_sec ==> (r matches Ok(m) && m == minutes_between(
            now_sec as int,
            end_sec as int,
        )),
        end_sec <= now_sec ==> r == Err::<u64, ScheduleError>(ScheduleError::TargetNotInFuture),
{
    if end_sec > now_sec {
        let diff: i128 = (end_sec as i128) - (now_sec as i128);
        assert(1 <= diff <= u64::MAX);
        let d: u64 = diff as u64;
        Ok(d / 60)
    } else {
        Err(ScheduleError::TargetNotInFuture)
    }
}

/// Resolves the target against `now`'s calendar date, in the schedule's
/// zone, and returns the remaining whole minutes together with the resolved
/// end instant in epoch seconds. `InvalidTimeOfDay` comes exactly when the
/// resolution yields no single instant — an invalid time of day, or a local
/// time skipped or duplicated by a clock change; `TargetNotInFuture` exactly
/// when the resolved instant is not strictly after `now`.
pub fn get_duration_until(now: &Moment, target: &Target) -> (r: Result<
    (u64, i64),
    ScheduleError,
>)
    ensures
        (r is Ok) <==> (resolution_of(*now, *target) matches Some(end) && end > now.epoch_sec),
        r matches Ok(p) ==> {
            &&& valid_hms(target.hour, target.min, target.sec)
            &&& resolution_of(*now, *target) == Some(p.1 as int)
            &&& p.1 > now.epoch_sec
            &&& p.0 == minutes_between(now.epoch_sec as int, p.1 as int)
        },
        (r == Err::<(u64, i64), ScheduleError>(ScheduleError::InvalidTimeOfDay)) <==> (
        resolution_of(*now, *target) is None),
        (r == Err::<(u64, i64), ScheduleError>(ScheduleError::TargetNotInFuture)) <==> (
        resolution_of(*now, *target) matches Some(end) && end <= now.epoch_sec),
        !valid_hms(target.hour, target.min, target.sec) ==> r == Err::<(u64, i64), ScheduleError>(
            ScheduleError::InvalidTimeOfDay,
        ),
{
    match london_instant(now.year, now.month, now.day, target.hour, target.min, target.sec) {
        None => Err(ScheduleError::InvalidTimeOfDay),
        Some(end_sec) => match duration_from_instants(now.epoch_sec, end_sec) {
            Ok(mins) => Ok((mins, end_sec)),
            Err(e) => Err(e),
        },
    }
}

} // verus!
