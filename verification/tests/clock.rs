use scree::time::{Duration, Instant, Timestamp, MAX_SECS, MIN_SECS};

fn secs(n: u64) -> Duration {
    Duration::from_secs(n)
}

fn at(n: i64) -> Timestamp {
    Timestamp::new(n, 0).unwrap()
}

#[test]
fn duration_parts() {
    let d = Duration::new(3, 500_000_000).unwrap();
    assert_eq!(d.as_secs(), 3);
    assert_eq!(d.subsec_nanos(), 500_000_000);
    assert!(Duration::new(3, 1_000_000_000).is_none());
    assert!(Duration::new(u64::MAX, 999_999_999).is_some());
    assert!(secs(0).is_zero());
    assert!(!Duration::new(0, 1).unwrap().is_zero());
}

#[test]
fn duration_order_and_difference() {
    assert!(secs(5).at_least(secs(5)));
    assert!(!secs(4).at_least(secs(5)));
    assert!(secs(5).at_least(Duration::new(4, 999_999_999).unwrap()));
    assert_eq!(secs(5).saturating_sub(Duration::new(1, 1).unwrap()), Duration::new(3, 999_999_999).unwrap());
    assert_eq!(secs(1).saturating_sub(secs(2)), secs(0));
}

#[test]
fn duration_tenth_agrees_with_std() {
    for (s, n) in [(0u64, 0u32), (9, 999_999_999), (60, 0), (61, 5), (u64::MAX, 999_999_999), (3601, 17)] {
        let tenth = Duration::new(s, n).unwrap().tenth();
        let std_tenth = std::time::Duration::new(s, n) / 10;
        assert_eq!(tenth.as_secs(), std_tenth.as_secs());
        assert_eq!(tenth.subsec_nanos(), std_tenth.subsec_nanos());
    }
    assert_eq!(secs(3600).tenth(), secs(360));
}

#[test]
fn duration_truncated() {
    assert_eq!(Duration::new(7, 999_999_999).unwrap().truncated(), secs(7));
}

#[test]
fn calendar_bounds_are_those_of_chrono() {
    let min = chrono::DateTime::<chrono::Utc>::MIN_UTC;
    let max = chrono::DateTime::<chrono::Utc>::MAX_UTC;
    assert_eq!(min.timestamp(), MIN_SECS);
    assert_eq!(max.timestamp(), MAX_SECS);
    assert!(Timestamp::new(MIN_SECS, 0).is_some());
    assert!(Timestamp::new(MIN_SECS - 1, 0).is_none());
    assert!(Timestamp::new(MAX_SECS, 999_999_999).is_some());
    assert!(Timestamp::new(MAX_SECS + 1, 0).is_none());
    assert!(Timestamp::new(0, 1_000_000_000).is_none());
}

#[test]
fn timestamp_plus() {
    let t = Timestamp::new(10, 600_000_000).unwrap();
    let sum = t.plus(Duration::new(1, 600_000_000).unwrap());
    assert_eq!(sum.secs(), 12);
    assert_eq!(sum.subsec_nanos(), 200_000_000);
    let before_epoch = Timestamp::new(-10, 0).unwrap().plus(Duration::new(3, 1).unwrap());
    assert_eq!(before_epoch.secs(), -7);
    assert_eq!(before_epoch.subsec_nanos(), 1);
    // from one end of the calendar to the other
    let whole = Duration::new((MAX_SECS - MIN_SECS) as u64, 999_999_999).unwrap();
    let end = at(MIN_SECS).plus(whole);
    assert_eq!(end.secs(), MAX_SECS);
    assert_eq!(end.subsec_nanos(), 999_999_999);
}

#[test]
fn timestamp_can_add() {
    assert!(at(MAX_SECS - 5).can_add(Duration::new(5, 999_999_999).unwrap()));
    assert!(!at(MAX_SECS - 5).can_add(secs(6)));
    assert!(!Timestamp::new(MAX_SECS, 1).unwrap().can_add(Duration::new(0, 999_999_999).unwrap()));
    assert!(!at(0).can_add(secs(u64::MAX)));
}

#[test]
fn timestamp_since() {
    let d = Timestamp::new(12, 200_000_000).unwrap().since(Timestamp::new(10, 600_000_000).unwrap()).unwrap();
    assert_eq!(d, Duration::new(1, 600_000_000).unwrap());
    assert!(at(1).since(at(2)).is_none());
    assert_eq!(at(2).since(at(2)), Some(secs(0)));
    let whole = Timestamp::new(MAX_SECS, 999_999_999).unwrap().since(at(MIN_SECS)).unwrap();
    assert_eq!(whole.as_secs(), (MAX_SECS - MIN_SECS) as u64);
    assert_eq!(whole.subsec_nanos(), 999_999_999);
}

#[test]
fn timestamp_order() {
    assert!(at(1).is_before(at(2)));
    assert!(!at(2).is_before(at(2)));
    assert!(at(-1).is_before(Timestamp::new(-1, 1).unwrap()));
    assert_eq!(at(3).min(at(2)), at(2));
    assert_eq!(at(2).min(at(3)), at(2));
}

#[test]
fn timestamp_texts() {
    assert_eq!(at(0).format(), "1970-01-01 00:00:00 +00:00");
    assert_eq!(at(1_738_324_800).format(), "2025-01-31 12:00:00 +00:00");
    assert_eq!(at(0).to_rfc3339(), "1970-01-01T00:00:00+00:00");
    assert_eq!(Timestamp::new(0, 500_000_000).unwrap().to_rfc3339(), "1970-01-01T00:00:00.500+00:00");
}

#[test]
fn instants() {
    let a = Instant::new(secs(10));
    let b = Instant::new(secs(13));
    assert!(a.is_before(b));
    assert!(!b.is_before(a));
    assert!(!a.is_before(a));
    assert_eq!(b.duration_since(a), secs(3));
    assert_eq!(a.duration_since(b), secs(0));
}
