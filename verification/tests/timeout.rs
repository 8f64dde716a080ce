use zero2prod::timeout::Timeout;

#[test]
fn milliseconds_split_into_seconds_and_nanoseconds() {
    let timeout = Timeout::from_millis(200);
    assert_eq!(timeout.as_secs(), 0);
    assert_eq!(timeout.subsec_nanos(), 200_000_000);
    assert_eq!(timeout.as_millis(), 200);

    let timeout = Timeout::from_millis(10_000);
    assert_eq!(timeout.as_secs(), 10);
    assert_eq!(timeout.subsec_nanos(), 0);

    let timeout = Timeout::from_millis(1_999);
    assert_eq!(timeout.as_secs(), 1);
    assert_eq!(timeout.subsec_nanos(), 999_000_000);
    assert_eq!(timeout.as_millis(), 1_999);
}

#[test]
fn a_timeout_agrees_with_the_standard_duration() {
    for millis in [0u64, 1, 999, 1_000, 1_001, 180_000, u64::MAX] {
        let timeout = Timeout::from_millis(millis);
        let duration = std::time::Duration::from_millis(millis);
        assert_eq!(timeout.as_secs(), duration.as_secs());
        assert_eq!(timeout.subsec_nanos(), duration.subsec_nanos());
        assert_eq!(timeout.as_millis(), duration.as_millis());
    }
}

#[test]
fn equal_spans_are_equal() {
    assert_eq!(Timeout::from_millis(200), Timeout::from_millis(200));
    assert_ne!(Timeout::from_millis(200), Timeout::from_millis(201));
}
