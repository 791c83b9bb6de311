//! Core data types of the scheduler.

use vstd::prelude::*;

verus! {

/// A target wall-clock time of day. The fields are unconstrained here;
/// validity is checked when the target is resolved against a concrete day.
#[derive(Debug, Clone, Copy, PartialEq, Eq, Structural)]
pub struct Target {
    pub hour: u32,
    pub min: u32,
    pub sec: u32,
}

impl Target {
    /// A target on the full hour.
    pub fn hour(hour: u32) -> (t: Target)
        ensures
            t == (Target { hour, min: 0, sec: 0 }),
    {
        Target { hour, min: 0, sec: 0 }
    }

    /// A target on a given hour and minute.
    pub fn hour_min(hour: u32, min: u32) -> (t: Target)
        ensures
            t == (Target { hour, min, sec: 0 }),
    {
        Target { hour, min, sec: 0 }
    }
}

/// Whether the three fields form a valid time of day.
pub open spec fn valid_hms(hour: u32, min: u32, sec: u32) -> bool {
    hour < 24 && min < 60 && sec < 60
}

/// A concrete moment: the local calendar date it falls on in the schedule's
/// time zone, together with the instant itself as seconds since the Unix
/// epoch. The caller supplies both, read off one wall-clock reading.
#[derive(Debug, Clone, Copy, PartialEq, Eq, Structural)]
pub struct Moment {
    pub year: i32,
    pub month: u32,
    pub day: u32,
    pub epoch_sec: i64,
}

/// Why a schedule could not be produced. Every failure is terminal: the
/// library never retries or partially recovers.
#[derive(Debug, Clone, Copy, PartialEq, Eq, Structural)]
pub enum ScheduleError {
    /// The target hour, minute and second do not compose a valid, unambiguous
    /// time of day on the chosen date.
    InvalidTimeOfDay,
    /// The resolved end time is not strictly after the reference moment.
    TargetNotInFuture,
    /// The remaining duration is at most one full interval, so no
    /// decomposition exists.
    IntervalExceedsAvailable,
}

} // verus!
