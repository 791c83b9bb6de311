//! Building a complete schedule: resolve the remaining duration, then
//! partition it into a timetable.

use vstd::prelude::*;
use crate::model::Moment;
use crate::model::ScheduleError;
use crate::model::Target;
use crate::model::valid_hms;
use crate::partition::Activity;
use crate::partition::INTERVAL_MINUTES;
use crate::partition::lemma_partition_total;
use crate::partition::standard_intervals;
use crate::partition::partition;
use crate::partition::spec_partition;
use crate::partition::total_minutes;
use crate::resolve::get_duration_until;
use crate::resolve::resolution_of;
use crate::resolve::minutes_between;

verus! {

/// The ordered activities of a schedule; insertion order is chronological
/// order.
#[derive(Debug)]
pub struct Timetable {
    pub entries: Vec<Activity>,
}

/// A complete schedule: the timetable, the moment it starts, the resolved
/// end instant in epoch seconds, and the length in minutes of the final
/// partial interval (zero when the timetable ends on a full interval).
#[derive(Debug)]
pub struct Schedule {
    pub timetable: Timetable,
    pub start_time: Moment,
    pub end_time_sec: i64,
    pub remaining_minutes: u64,
}

/// Resolves `target` against `now` and partitions the remaining duration
/// into a timetable. A schedule is owed exactly when the target resolves to
/// a single instant, that instant lies strictly in the future, and more than
/// one full interval remains until it; each error names the one condition
/// that failed, the resolver's errors passed through unchanged. The
/// timetable is exactly the partition of the whole minutes between start
/// and end, and its entries sum to that duration.
pub fn create_schedule(now: &Moment, target: &Target) -> (r: Result<Schedule, ScheduleError>)
    ensures
        (r is Ok) <==> (resolution_of(*now, *target) matches Some(end) && end > now.epoch_sec
            && minutes_between(now.epoch_sec as int, end) > INTERVAL_MINUTES),
        r matches Ok(s) ==> {
            let avail = minutes_between(now.epoch_sec as int, s.end_time_sec as int);
            &&& valid_hms(target.hour, target.min, target.sec)
            &&& s.start_time == *now
            &&& resolution_of(*now, *target) == Some(s.end_time_sec as int)
            &&& s.end_time_sec > now.epoch_sec
            &&& avail > INTERVAL_MINUTES
            &&& s.timetable.entries@ == spec_partition(standard_intervals(), avail as u64)
            &&& total_minutes(s.timetable.entries@) == avail
            &&& s.remaining_minutes == avail % (INTERVAL_MINUTES as int)
        },
        (r == Err::<Schedule, ScheduleError>(ScheduleError::InvalidTimeOfDay)) <==> (
        resolution_of(*now, *target) is None),
        (r == Err::<Schedule, ScheduleError>(ScheduleError::TargetNotInFuture)) <==> (
        resolution_of(*now, *target) matches Some(end) && end <= now.epoch_sec),
        (r == Err::<Schedule, ScheduleError>(ScheduleError::IntervalExceedsAvailable)) <==> (
        resolution_of(*now, *target) matches Some(end) && end > now.epoch_sec && minutes_between(
            now.epoch_sec as int,
            end,
        ) <= INTERVAL_MINUTES),
        !valid_hms(target.hour, target.min, target.sec) ==> r == Err::<Schedule, ScheduleError>(
            ScheduleError::InvalidTimeOfDay,
        ),
{
    let (avail, end_sec) = match get_duration_until(now, target) {
        Ok(p) => p,
        Err(e) => {
            return Err(e);
        },
    };
    let entries = match partition(avail) {
        Ok(v) => v,
        Err(e) => {
            return Err(e);
        },
    };
    proof {
        lemma_partition_total(standard_intervals(), avail);
    }
    let remaining = avail % INTERVAL_MINUTES;
    Ok(
        Schedule {
            timetable: Timetable { entries },
            start_time: *now,
            end_time_sec: end_sec,
            remaining_minutes: remaining,
        },
    )
}

} // verus!
