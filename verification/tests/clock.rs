use velox_ledger::clock::{add_hours, from_timestamp, now, DateTime, MAX_SECONDS, MIN_SECONDS};

#[test]
fn now_is_on_the_calendar() {
    let t = now();
    assert!(t.seconds > 1_600_000_000);
    assert!(t.nanos < 1_000_000_000);
    assert_eq!(from_timestamp(t.seconds, t.nanos), Some(t));
}

#[test]
fn the_calendar_has_ends() {
    assert!(from_timestamp(0, 0).is_some());
    assert!(from_timestamp(MIN_SECONDS, 0).is_some());
    assert!(from_timestamp(MIN_SECONDS - 1, 0).is_none());
    assert!(from_timestamp(MAX_SECONDS, 999_999_999).is_some());
    assert!(from_timestamp(MAX_SECONDS + 1, 0).is_none());
    assert!(from_timestamp(i64::MAX, 0).is_none());
}

#[test]
fn leap_seconds_end_a_minute() {
    assert!(from_timestamp(59, 1_500_000_000).is_some());
    assert!(from_timestamp(-1, 1_999_999_999).is_some());
    assert!(from_timestamp(58, 1_000_000_000).is_none());
    assert!(from_timestamp(59, 2_000_000_000).is_none());
}

#[test]
fn a_day_later() {
    let t = DateTime { seconds: 1_700_000_000, nanos: 5 };
    assert_eq!(add_hours(t, 24), Some(DateTime { seconds: 1_700_086_400, nanos: 5 }));
}

#[test]
fn a_day_later_leaves_a_leap_second_behind() {
    let t = DateTime { seconds: 59, nanos: 1_200_000_000 };
    let later = add_hours(t, 24).unwrap();
    assert_eq!(later.nanos, 200_000_000);
    assert_eq!(later.seconds, 59 + 86_400);
}

#[test]
fn nothing_is_later_than_the_calendar() {
    assert_eq!(add_hours(DateTime { seconds: MAX_SECONDS, nanos: 0 }, 24), None);
    assert_eq!(add_hours(DateTime { seconds: MAX_SECONDS + 1, nanos: 0 }, 24), None);
    let last = DateTime { seconds: MAX_SECONDS - 86_400, nanos: 7 };
    assert_eq!(add_hours(last, 24), Some(DateTime { seconds: MAX_SECONDS, nanos: 7 }));
}
