//! The interval partitioner: decomposing an available duration into
//! alternating work and rest activities of fixed lengths.

use vstd::prelude::*;
use vstd::arithmetic::div_mod::lemma_fundamental_div_mod;
use crate::model::ScheduleError;

verus! {

/// Length in minutes of one full interval (one work span plus one rest span).
pub const INTERVAL_MINUTES: u64 = 30;

/// Length in minutes of the rest span inside each full interval.
pub const REST_MINUTES: u64 = 5;

/// The partitioner's configuration: the full interval length and the rest
/// span inside it, both in whole minutes. The schedule builder always uses
/// [`INTERVAL_MINUTES`] and [`REST_MINUTES`]; the configuration exists so
/// the lengths stand in one place rather than as scattered literals.
#[derive(Debug, Clone, Copy, PartialEq, Eq, Structural)]
pub struct Intervals {
    pub interval_minutes: u64,
    pub rest_minutes: u64,
}

/// A configuration is meaningful when the rest span is positive and leaves
/// a positive work span inside the interval.
pub open spec fn intervals_wf(c: Intervals) -> bool {
    0 < c.rest_minutes < c.interval_minutes
}

/// The configuration the schedule builder uses.
pub open spec fn standard_intervals() -> Intervals {
    Intervals { interval_minutes: INTERVAL_MINUTES, rest_minutes: REST_MINUTES }
}

/// The two kinds of activity a timetable is made of.
#[derive(Debug, Clone, Copy, PartialEq, Eq, Structural)]
pub enum ActivityKind {
    Work,
    Rest,
}

/// One timetable entry: a kind and a positive duration in whole minutes.
#[derive(Debug, Clone, Copy, PartialEq, Eq, Structural)]
pub struct Activity {
    pub kind: ActivityKind,
    pub minutes: u64,
}

/// The work span of a full interval: the interval minus its rest span.
pub open spec fn work_activity(c: Intervals) -> Activity {
    Activity {
        kind: ActivityKind::Work,
        minutes: (c.interval_minutes - c.rest_minutes) as u64,
    }
}

/// The rest span of a full interval.
pub open spec fn rest_activity(c: Intervals) -> Activity {
    Activity { kind: ActivityKind::Rest, minutes: c.rest_minutes }
}

/// `n` full intervals: `n` repetitions of the work/rest pair, in order.
pub open spec fn full_intervals(c: Intervals, n: int) -> Seq<Activity>
    decreases n,
{
    if n <= 0 {
        Seq::empty()
    } else {
        full_intervals(c, n - 1) + seq![work_activity(c), rest_activity(c)]
    }
}

/// The timetable owed for an available duration: one work/rest pair per
/// whole interval that fits, then a single shorter work entry holding the
/// remainder, if the remainder is positive.
pub open spec fn spec_partition(c: Intervals, available: u64) -> Seq<Activity> {
    let n = available as int / (c.interval_minutes as int);
    let r = available as int % (c.interval_minutes as int);
    if r > 0 {
        full_intervals(c, n).push(Activity { kind: ActivityKind::Work, minutes: r as u64 })
    } else {
        full_intervals(c, n)
    }
}

/// The sum, in minutes, of the durations of a sequence of activities.
pub open spec fn total_minutes(s: Seq<Activity>) -> int
    decreases s.len(),
{
    if s.len() == 0 {
        0
    } else {
        total_minutes(s.drop_last()) + s.last().minutes
    }
}

/// Decomposes `available` minutes into the alternating timetable described
/// by [`spec_partition`] for the given configuration. Rejects any duration
/// that does not strictly exceed one full interval, the single-interval
/// case included.
pub fn partition_with(c: Intervals, available: u64) -> (r: Result<Vec<Activity>, ScheduleError>)
    requires
        intervals_wf(c),
    ensures
        available <= c.interval_minutes ==> r == Err::<Vec<Activity>, ScheduleError>(
            ScheduleError::IntervalExceedsAvailable,
        ),
        available > c.interval_minutes ==> (r matches Ok(v) && v@ == spec_partition(c, available)),
{
    if available <= c.interval_minutes {
        return Err(ScheduleError::IntervalExceedsAvailable);
    }
    let iterations: u64 = available / c.interval_minutes;
    let remainder: u64 = available % c.interval_minutes;
    let work: u64 = c.interval_minutes - c.rest_minutes;
    let mut entries: Vec<Activity> = Vec::new();
    let mut i: u64 = 0;
    while i < iterations
        invariant
            intervals_wf(c),
            work == c.interval_minutes - c.rest_minutes,
            i <= iterations,
            entries@ == full_intervals(c, i as int),
        decreases iterations - i,
    {
        entries.push(Activity { kind: ActivityKind::Work, minutes: work });
        entries.push(Activity { kind: ActivityKind::Rest, minutes: c.rest_minutes });
        i = i + 1;
        assert(entries@ =~= full_intervals(c, i as int));
    }
    if remainder > 0 {
        entries.push(Activity { kind: ActivityKind::Work, minutes: remainder });
    }
    Ok(entries)
}

/// Decomposes `available` minutes with the standard interval and rest
/// lengths.
pub fn partition(available: u64) -> (r: Result<Vec<Activity>, ScheduleError>)
    ensures
        available <= INTERVAL_MINUTES ==> r == Err::<Vec<Activity>, ScheduleError>(
            ScheduleError::IntervalExceedsAvailable,
        ),
        available > INTERVAL_MINUTES ==> (r matches Ok(v) && v@ == spec_partition(
            standard_intervals(),
            available,
        )),
{
    partition_with(
        Intervals { interval_minutes: INTERVAL_MINUTES, rest_minutes: REST_MINUTES },
        available,
    )
}

/// How many entries `n` full intervals hold, and what each one is: the work
/// span at every even index, the rest span at every odd index.
pub proof fn lemma_full_intervals_shape(c: Intervals, n: int)
    requires
        n >= 0,
    ensures
        full_intervals(c, n).len() == 2 * n,
        forall|j: int|
            0 <= j < 2 * n && j % 2 == 0 ==> full_intervals(c, n)[j] == work_activity(c),
        forall|j: int|
            0 <= j < 2 * n && j % 2 == 1 ==> full_intervals(c, n)[j] == rest_activity(c),
    decreases n,
{
    if n > 0 {
        lemma_full_intervals_shape(c, n - 1);
        assert forall|j: int| 0 <= j < 2 * n && j % 2 == 0 implies full_intervals(c, n)[j]
            == work_activity(c) by {
            if j < 2 * (n - 1) {
                assert(full_intervals(c, n)[j] == full_intervals(c, n - 1)[j]);
            } else {
                assert(j == 2 * n - 2);
            }
        }
        assert forall|j: int| 0 <= j < 2 * n && j % 2 == 1 implies full_intervals(c, n)[j]
            == rest_activity(c) by {
            if j < 2 * (n - 1) {
                assert(full_intervals(c, n)[j] == full_intervals(c, n - 1)[j]);
            } else {
                assert(j == 2 * n - 1);
            }
        }
    }
}

/// The total duration of `n` full intervals is `n` whole interval lengths.
pub proof fn lemma_full_intervals_total(c: Intervals, n: int)
    requires
        intervals_wf(c),
        n >= 0,
    ensures
        full_intervals(c, n).len() == 2 * n,
        total_minutes(full_intervals(c, n)) == n * (c.interval_minutes as int),
    decreases n,
{
    if n > 0 {
        lemma_full_intervals_total(c, n - 1);
        let s = full_intervals(c, n);
        let t = full_intervals(c, n - 1).push(work_activity(c));
        assert(s.last() == rest_activity(c));
        assert(s.drop_last() =~= t);
        assert(t.drop_last() =~= full_intervals(c, n - 1));
        assert(total_minutes(s) == total_minutes(t) + c.rest_minutes as int);
        assert(total_minutes(t) == total_minutes(full_intervals(c, n - 1)) + (c.interval_minutes
            - c.rest_minutes));
        assert(n * (c.interval_minutes as int) == (n - 1) * (c.interval_minutes as int)
            + c.interval_minutes as int) by (nonlinear_arith);
    }
}

/// Law: the partitioned activity durations sum exactly to the available
/// duration, so a schedule built from them spans precisely the time between
/// its start and its end.
pub proof fn lemma_partition_total(c: Intervals, available: u64)
    requires
        intervals_wf(c),
    ensures
        total_minutes(spec_partition(c, available)) == available,
{
    let d = c.interval_minutes as int;
    let n = available as int / d;
    let r = available as int % d;
    lemma_fundamental_div_mod(available as int, d);
    lemma_full_intervals_total(c, n);
    if r > 0 {
        let s = spec_partition(c, available);
        assert(s.drop_last() =~= full_intervals(c, n));
    }
}

/// Law: the timetable strictly alternates — a work span at every even
/// index, a rest span at every odd index — so the only entry that can stand
/// without a partner is a final work remainder, and every entry has a
/// positive duration.
pub proof fn lemma_partition_alternates(c: Intervals, available: u64)
    requires
        intervals_wf(c),
    ensures
        forall|j: int|
            0 <= j < spec_partition(c, available).len() && j % 2 == 0 ==> spec_partition(
                c,
                available,
            )[j].kind == ActivityKind::Work,
        forall|j: int|
            0 <= j < spec_partition(c, available).len() && j % 2 == 1 ==> spec_partition(
                c,
                available,
            )[j].kind == ActivityKind::Rest,
        forall|j: int|
            0 <= j < spec_partition(c, available).len() ==> spec_partition(
                c,
                available,
            )[j].minutes > 0,
{
    let d = c.interval_minutes as int;
    let n = available as int / d;
    let r = available as int % d;
    lemma_fundamental_div_mod(available as int, d);
    lemma_full_intervals_shape(c, n);
}

/// Law: partitioning is deterministic — two runs on one and the same
/// available duration yield identical activity sequences, since each result
/// of [`partition`] is pinned to [`spec_partition`] of its input.
pub proof fn lemma_partition_deterministic(
    c: Intervals,
    available: u64,
    first: Seq<Activity>,
    second: Seq<Activity>,
)
    requires
        first == spec_partition(c, available),
        second == spec_partition(c, available),
    ensures
        first == second,
{
}

} // verus!
