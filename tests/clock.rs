use udp_tstamp::clock::{diff_systime, Span, Timestamp};

fn ts(sec: i64, nsec: i64) -> Timestamp {
    Timestamp::from_parts(sec, nsec).unwrap()
}

#[test]
fn diff_is_symmetric() {
    let a = ts(100, 250_000_000);
    let b = ts(98, 750_000_000);
    assert_eq!(diff_systime(a, b), diff_systime(b, a));
    assert_eq!(diff_systime(a, b), Span { secs: 1, nanos: 500_000_000 });
}

#[test]
fn diff_of_equal_is_zero() {
    let a = ts(1_700_000_000, 123_456_789);
    assert_eq!(diff_systime(a, a), Span { secs: 0, nanos: 0 });
}

#[test]
fn diff_borrows_nanoseconds() {
    assert_eq!(diff_systime(ts(5, 100), ts(3, 900)), Span { secs: 1, nanos: 999_999_200 });
    assert_eq!(diff_systime(ts(3, 900), ts(5, 100)), Span { secs: 1, nanos: 999_999_200 });
}

#[test]
fn diff_same_second() {
    assert_eq!(diff_systime(ts(7, 10), ts(7, 30)), Span { secs: 0, nanos: 20 });
}

#[test]
fn diff_against_zero_is_whole_time() {
    let now = ts(1_700_000_000, 42);
    assert_eq!(diff_systime(ts(0, 0), now), Span { secs: 1_700_000_000, nanos: 42 });
}

#[test]
fn diff_extremes_do_not_overflow() {
    let a = ts(i64::MAX, 999_999_999);
    let b = ts(i64::MIN, 0);
    assert_eq!(diff_systime(a, b), Span { secs: u64::MAX, nanos: 999_999_999 });
    assert_eq!(diff_systime(b, a), Span { secs: u64::MAX, nanos: 999_999_999 });
}

#[test]
fn diff_across_epoch() {
    assert_eq!(diff_systime(ts(-1, 500_000_000), ts(0, 250_000_000)), Span { secs: 0, nanos: 750_000_000 });
}

#[test]
fn micros_truncate() {
    assert_eq!(Span { secs: 2, nanos: 345_678_999 }.as_micros(), 2_345_678);
    assert_eq!(Span { secs: 0, nanos: 999 }.as_micros(), 0);
    assert_eq!(Span { secs: u64::MAX, nanos: 999_999_999 }.as_micros(), (u64::MAX as u128) * 1_000_000 + 999_999);
}

#[test]
fn from_parts_checks_nanoseconds() {
    assert_eq!(Timestamp::from_parts(1, 999_999_999), Some(Timestamp { sec: 1, nsec: 999_999_999 }));
    assert_eq!(Timestamp::from_parts(1, 1_000_000_000), None);
    assert_eq!(Timestamp::from_parts(1, -1), None);
}

#[test]
fn absent_is_zero_only() {
    assert!(ts(0, 0).is_absent());
    assert!(!ts(0, 1).is_absent());
    assert!(!ts(1, 0).is_absent());
}
