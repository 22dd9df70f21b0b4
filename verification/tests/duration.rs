use psst_gui::duration::Duration;

#[test]
fn spans_are_counted_like_the_standard_library_does() {
    for (secs, subsec) in [(0u64, 0u32), (1, 5), (61, 999_999_999), (u64::MAX, 999_999_999)] {
        let span = Duration::new(secs, subsec);
        let std_span = std::time::Duration::new(secs, subsec);
        assert_eq!(span.nanos, std_span.as_nanos());
        assert_eq!(span.as_secs(), secs);
        assert_eq!(span.subsec_nanos(), subsec);
    }
    for number in [0u64, 1, 1_500, u64::MAX] {
        assert_eq!(
            Duration::from_secs(number).nanos,
            std::time::Duration::from_secs(number).as_nanos()
        );
        assert_eq!(
            Duration::from_millis(number).nanos,
            std::time::Duration::from_millis(number).as_nanos()
        );
    }
}

#[test]
fn spans_are_added_subtracted_and_compared() {
    let short = Duration::new(1, 900_000_000);
    let long = Duration::new(3, 200_000_000);
    assert_eq!(short.plus(long), Duration::new(5, 100_000_000));
    assert_eq!(long.saturating_sub(short), Duration::new(1, 300_000_000));
    assert_eq!(short.saturating_sub(long), Duration::new(0, 0));
    assert_eq!(short.min(long), short);
    assert_eq!(long.min(short), short);
    assert_eq!(short.min(short), short);
}
