use timebox::partition::partition;
use timebox::Activity;
use timebox::ActivityKind;
use timebox::ScheduleError;

fn entry(kind: ActivityKind, minutes: u64) -> Activity {
    Activity { kind, minutes }
}

#[test]
fn exact_multiple_has_no_remainder() {
    let got = partition(60).unwrap();
    let expected = vec![
        entry(ActivityKind::Work, 25),
        entry(ActivityKind::Rest, 5),
        entry(ActivityKind::Work, 25),
        entry(ActivityKind::Rest, 5),
    ];
    assert_eq!(got, expected);
}

#[test]
fn remainder_becomes_trailing_work() {
    let got = partition(70).unwrap();
    let expected = vec![
        entry(ActivityKind::Work, 25),
        entry(ActivityKind::Rest, 5),
        entry(ActivityKind::Work, 25),
        entry(ActivityKind::Rest, 5),
        entry(ActivityKind::Work, 10),
    ];
    assert_eq!(got, expected);
}

#[test]
fn single_interval_rejected() {
    assert_eq!(
        partition(30),
        Err(ScheduleError::IntervalExceedsAvailable)
    );
}

#[test]
fn too_short_rejected() {
    assert_eq!(partition(29), Err(ScheduleError::IntervalExceedsAvailable));
    assert_eq!(partition(1), Err(ScheduleError::IntervalExceedsAvailable));
    assert_eq!(partition(0), Err(ScheduleError::IntervalExceedsAvailable));
}

#[test]
fn smallest_accepted_duration() {
    let got = partition(31).unwrap();
    let expected = vec![
        entry(ActivityKind::Work, 25),
        entry(ActivityKind::Rest, 5),
        entry(ActivityKind::Work, 1),
    ];
    assert_eq!(got, expected);
}

#[test]
fn repeated_runs_are_identical() {
    for available in [31u64, 60, 70, 95, 1441] {
        let first = partition(available).unwrap();
        let second = partition(available).unwrap();
        assert_eq!(first, second);
    }
}

#[test]
fn entries_alternate_and_sum() {
    for available in [31u64, 45, 60, 61, 90, 119, 600] {
        let got = partition(available).unwrap();
        assert!(got.len() >= 2);
        for (i, a) in got.iter().enumerate() {
            if i % 2 == 0 {
                assert_eq!(a.kind, ActivityKind::Work);
            } else {
                assert_eq!(a.kind, ActivityKind::Rest);
            }
            assert!(a.minutes > 0);
        }
        let total: u64 = got.iter().map(|a| a.minutes).sum();
        assert_eq!(total, available);
    }
}

#[test]
fn custom_intervals_respected() {
    let c = timebox::Intervals {
        interval_minutes: 10,
        rest_minutes: 2,
    };
    let got = timebox::partition::partition_with(c, 25).unwrap();
    let expected = vec![
        entry(ActivityKind::Work, 8),
        entry(ActivityKind::Rest, 2),
        entry(ActivityKind::Work, 8),
        entry(ActivityKind::Rest, 2),
        entry(ActivityKind::Work, 5),
    ];
    assert_eq!(got, expected);
    assert_eq!(
        timebox::partition::partition_with(c, 10),
        Err(ScheduleError::IntervalExceedsAvailable)
    );
}
