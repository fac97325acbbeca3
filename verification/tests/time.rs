use kamu::flow::service::{FlowServiceImpl, FlowServiceRunConfig};
use kamu::flow::triggering::throttling_boundary_time;
use kamu::ingest::schema::{with_system_columns, DatasetVocabulary};
use kamu::time::{DateTime, TimeDelta, MAX_SECS, MIN_SECS};

fn at(secs: i64) -> DateTime {
    DateTime::from_timestamp(secs, 0).unwrap()
}

#[test]
fn test_timestamps_are_held_exactly() {
    let t = DateTime::from_timestamp(-2, 999_999_999).unwrap();
    assert_eq!(t.timestamp(), -2);
    assert_eq!(t.timestamp_subsec_nanos(), 999_999_999);
    assert_eq!(DateTime::from_timestamp(0, 2_000_000_000), None);
}

#[test]
fn test_timestamp_limits() {
    assert!(DateTime::from_timestamp(MIN_SECS, 0).is_some());
    assert!(DateTime::from_timestamp(MIN_SECS - 1, 0).is_none());
    assert!(DateTime::from_timestamp(MAX_SECS, 999_999_999).is_some());
    assert!(DateTime::from_timestamp(MAX_SECS + 1, 0).is_none());
}

#[test]
fn test_limits_are_those_of_the_calendar() {
    assert_eq!(chrono::DateTime::<chrono::Utc>::MIN_UTC.timestamp(), MIN_SECS);
    assert_eq!(chrono::DateTime::<chrono::Utc>::MAX_UTC.timestamp(), MAX_SECS);
}

#[test]
fn test_order_of_moments() {
    assert!(at(1).before(&at(2)));
    assert!(!at(2).before(&at(2)));
    assert!(at(2).not_after(&at(2)));
    assert_eq!(at(1).later_of(at(2)), at(2));
    assert_eq!(at(3).later_of(at(2)), at(3));
}

#[test]
fn test_spans() {
    let d = TimeDelta::new(-1, 250_000_000).unwrap();
    assert_eq!(d.seconds(), -1);
    assert_eq!(d.subsec_nanos(), 250_000_000);
    assert_eq!(TimeDelta::new(1, 1_000_000_000), None);
    assert_eq!(TimeDelta::new(i64::MAX, 0), None);
    assert!(TimeDelta::new(i64::MAX / 1000, 0).is_some());
}

#[test]
fn test_what_can_be_added() {
    assert!(at(0).can_add(TimeDelta::new(1, 0).unwrap()));
    assert!(!at(MAX_SECS).can_add(TimeDelta::new(1, 0).unwrap()));
    assert!(at(MAX_SECS).can_add(TimeDelta::new(-1, 0).unwrap()));
}

/// A moment `nanos` past a second; from one second on it is within a leap second.
fn moment(secs: i64, nanos: u32) -> DateTime {
    DateTime::from_timestamp(secs, nanos).unwrap()
}

fn in_chrono(t: DateTime) -> chrono::DateTime<chrono::Utc> {
    let second = chrono::DateTime::from_timestamp(t.timestamp(), 0).unwrap().naive_utc();
    chrono::Timelike::with_nanosecond(&second, t.timestamp_subsec_nanos()).unwrap().and_utc()
}

fn sum(t: DateTime, secs: i64, nanos: u32) -> DateTime {
    throttling_boundary_time(at(MIN_SECS), Some(t), TimeDelta::new(secs, nanos).unwrap())
}

fn rounded(t: DateTime, secs: i64, nanos: u32) -> DateTime {
    FlowServiceImpl::new(FlowServiceRunConfig {
        awaiting_step: TimeDelta::new(secs, nanos).unwrap(),
        mandatory_throttling_period: TimeDelta::new(0, 0).unwrap(),
    })
    .round_time(t)
    .unwrap()
}

#[test]
fn test_leap_second_comes_between_two_seconds() {
    let leap = moment(59, 1_500_000_000);
    assert_eq!(leap.timestamp(), 59);
    assert_eq!(leap.timestamp_subsec_nanos(), 1_500_000_000);
    assert!(moment(59, 999_999_999).before(&leap));
    assert!(leap.before(&at(60)));
    assert_ne!(leap, moment(60, 500_000_000));
}

#[test]
fn test_sums_with_leap_seconds() {
    let leap = moment(59, 1_500_000_000);
    // Within the leap second, and back into the second before
    assert_eq!(sum(leap, 0, 400_000_000), moment(59, 1_900_000_000));
    assert_eq!(sum(leap, -1, 600_000_000), moment(59, 1_100_000_000));
    assert_eq!(sum(leap, -1, 100_000_000), moment(59, 600_000_000));
    // Past its end, where it is not counted
    assert_eq!(sum(leap, 0, 500_000_000), at(60));
    assert_eq!(sum(leap, 60, 0), moment(119, 500_000_000));
    // Before its beginning, where it is
    assert_eq!(sum(leap, -60, 0), moment(0, 500_000_000));
    // The last moment of all is within a leap second
    let last = moment(MAX_SECS, 1_999_999_999);
    assert!(last.can_add(TimeDelta::new(-1, 0).unwrap()));
    assert!(!last.can_add(TimeDelta::new(0, 1).unwrap()));
}

#[test]
fn test_rounding_with_leap_seconds() {
    assert_eq!(rounded(moment(59, 1_500_000_000), 10, 0), moment(59, 1_000_000_000));
    assert_eq!(rounded(moment(59, 1_500_000_000), 1, 0), at(60));
    assert_eq!(rounded(moment(59, 1_000_000_000), 10, 0), moment(59, 1_000_000_000));
    // The step does not divide the minute: the leap second is lost on the way
    assert_eq!(rounded(moment(59, 1_900_000_000), 62, 0), at(61));
}

#[test]
fn test_moments_agree_with_the_calendar() {
    let moments = [
        at(0),
        moment(59, 999_999_999),
        moment(59, 1_000_000_000),
        moment(59, 1_400_000_000),
        moment(59, 1_999_999_999),
        moment(17, 1_700_000_000),
        at(60),
        moment(-61, 1_300_000_000),
        moment(-1, 1_300_000_000),
    ];
    let spans = [
        (0, 0),
        (0, 1),
        (0, 600_000_000),
        (0, 999_999_999),
        (1, 0),
        (90, 500_000_000),
        (-1, 999_999_999),
        (-1, 300_000_000),
        (-1, 0),
        (-90, 500_000_000),
    ];
    for t in moments {
        for other in moments {
            assert_eq!(t.before(&other), in_chrono(t) < in_chrono(other));
        }
        for (secs, nanos) in spans {
            let delta = chrono::TimeDelta::new(secs, nanos).unwrap();
            assert_eq!(in_chrono(sum(t, secs, nanos)), in_chrono(t) + delta);
            if secs >= 0 && (secs, nanos) != (0, 0) {
                let expected = chrono::DurationRound::duration_round(in_chrono(t), delta).unwrap();
                assert_eq!(in_chrono(rounded(t, secs, nanos)), expected);
            }
        }
        let plan = with_system_columns(&vec![], &DatasetVocabulary::default(), &t, &t, 0);
        assert_eq!(plan.system_time.millis, in_chrono(t).timestamp_millis());
    }
}
