use noisy_shuttle::time::{Duration, Instant};

#[test]
fn durations_keep_seconds_and_nanoseconds() {
    let span = Duration::new(3, 999_999_999);
    assert_eq!((span.as_secs(), span.subsec_nanos()), (3, 999_999_999));
    assert_eq!(Duration::from_millis(2_500), Duration::new(2, 500_000_000));
    assert_eq!(Duration::from_secs(7), Duration::new(7, 0));

    let longest = Duration::new(u64::MAX, 999_999_999);
    assert_eq!(longest.as_secs(), u64::MAX);
    assert_eq!(longest.subsec_nanos(), 999_999_999);
}

#[test]
fn durations_multiply_as_long_as_the_result_can_be_told() {
    let pairs = [
        (std::time::Duration::new(1, 500_000_000), 2),
        (std::time::Duration::new(u64::MAX / 2, 999_999_999), 2),
        (std::time::Duration::new(u64::MAX / 2 + 1, 0), 2),
        (std::time::Duration::MAX, 1),
        (std::time::Duration::MAX, 0),
    ];
    for (span, factor) in pairs {
        let ours = Duration::new(span.as_secs(), span.subsec_nanos()).checked_mul(factor);
        let expected = span
            .checked_mul(factor)
            .map(|span| Duration::new(span.as_secs(), span.subsec_nanos()));
        assert_eq!(ours, expected);
    }
}

#[test]
fn time_does_not_run_backwards() {
    let early = Instant::at(Duration::from_secs(1));
    let late = Instant::at(Duration::from_secs(4));
    assert_eq!(late.duration_since(&early), Duration::from_secs(3));
    assert_eq!(early.duration_since(&late), Duration::from_secs(0));
    assert_eq!(
        late.checked_duration_since(&early),
        Some(Duration::from_secs(3))
    );
    assert_eq!(early.checked_duration_since(&late), None);
    assert!(Duration::from_secs(1).shorter_than(&Duration::from_millis(1_001)));
    assert!(!Duration::from_secs(1).shorter_than(&Duration::from_secs(1)));
}
