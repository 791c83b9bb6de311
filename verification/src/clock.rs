//! The one trusted boundary: turning a civil date and time of day in the
//! Europe/London zone into an instant, using the chrono and chrono-tz crates.

use vstd::prelude::*;
use crate::model::valid_hms;

verus! {

/// What resolving a civil date and time of day in the Europe/London zone
/// yields: the instant, in seconds since the Unix epoch, at which that local
/// time occurs — or nothing, when the date or time of day is invalid or the
/// local time is skipped or ambiguous around a clock change. The time-zone
/// database is compiled into the binary, so the outcome is a function of
/// the six arguments alone.
pub uninterp spec fn london_lookup(
    year: int,
    month: int,
    day: int,
    hour: int,
    min: int,
    sec: int,
) -> Option<int>;

/// Relies on chrono's `TimeZone::with_ymd_and_hms` for chrono-tz's
/// `Europe::London`, and on `DateTime::timestamp` to read the result as epoch
/// seconds. `with_ymd_and_hms` returns `None` on an invalid date or time of
/// day, and a single datetime only when the local time exists unambiguously;
/// an ambiguous or skipped local time is reported here as `None` too. Its
/// lookup reads only the compiled-in transition table, so equal arguments
/// yield the equal outcome that `london_lookup` names.
#[verifier::external_body]
pub(crate) fn london_instant(
    year: i32,
    month: u32,
    day: u32,
    hour: u32,
    min: u32,
    sec: u32,
) -> (r: Option<i64>)
    ensures
        (r is Some) <==> (london_lookup(
            year as int,
            month as int,
            day as int,
            hour as int,
            min as int,
            sec as int,
        ) is Some),
        r matches Some(s) ==> valid_hms(hour, min, sec) && london_lookup(
            year as int,
            month as int,
            day as int,
            hour as int,
            min as int,
            sec as int,
        ) == Some(s as int),
        !valid_hms(hour, min, sec) ==> r is None,
{
    match chrono::TimeZone::with_ymd_and_hms(
        &chrono_tz::Europe::London,
        year,
        month,
        day,
        hour,
        min,
        sec,
    ) {
        chrono::LocalResult::Single(dt) => Some(dt.timestamp()),
        chrono::LocalResult::Ambiguous(_, _) => None,
        chrono::LocalResult::None => None,
    }
}

} // verus!
