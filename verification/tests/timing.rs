use hanzo_tunnel::timing::Interval;

#[test]
fn spans_have_seconds_and_nanoseconds() {
    assert_eq!(Interval::from_secs(3).as_secs(), 3);
    assert_eq!(Interval::from_secs(3).subsec_nanos(), 0);
    assert_eq!(Interval::new(2, 5).as_secs(), 2);
    assert_eq!(Interval::new(2, 5).subsec_nanos(), 5);
    for (s, n) in [(2, 1_000_000_000), (0, u32::MAX), (u64::MAX - 4, u32::MAX)] {
        let expected = std::time::Duration::new(s, n);
        assert_eq!(Interval::new(s, n).as_secs(), expected.as_secs());
        assert_eq!(Interval::new(s, n).subsec_nanos(), expected.subsec_nanos());
    }
}

#[test]
fn spans_double_like_durations() {
    for (s, n) in [
        (0, 0),
        (1, 0),
        (1, 500_000_000),
        (3, 999_999_999),
        (u64::MAX / 2, 0),
        (u64::MAX / 2, 499_999_999),
        (u64::MAX / 2, 500_000_000),
        (u64::MAX / 2, 999_999_999),
        (u64::MAX / 2 + 1, 0),
        (u64::MAX, 999_999_999),
    ] {
        let expected = std::time::Duration::new(s, n).checked_mul(2);
        let got = Interval::new(s, n).doubled().map(|i| std::time::Duration::new(i.as_secs(), i.subsec_nanos()));
        assert_eq!(got, expected);
    }
}

#[test]
fn the_shorter_span_is_taken() {
    let a = Interval::new(1, 2);
    let b = Interval::new(1, 3);
    let c = Interval::new(2, 0);
    assert_eq!(a.shorter(b), a);
    assert_eq!(b.shorter(a), a);
    assert_eq!(c.shorter(b), b);
    assert_eq!(a.shorter(a), a);
}
