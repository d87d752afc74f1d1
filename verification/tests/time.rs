use tester::TimeSpan;

#[test]
fn spans_are_made_from_seconds_and_milliseconds() {
    assert_eq!(TimeSpan::from_secs(10).as_secs(), 10);
    assert_eq!(TimeSpan::from_secs(10).subsec_nanos(), 0);
    assert_eq!(TimeSpan::from_millis(2_500).as_secs(), 2);
    assert_eq!(TimeSpan::from_millis(2_500).subsec_nanos(), 500_000_000);
    assert_eq!(TimeSpan::from_millis(999).as_secs(), 0);
    assert_eq!(TimeSpan::from_millis(999).subsec_nanos(), 999_000_000);
    assert_eq!(TimeSpan::from_millis(1_000), TimeSpan::from_secs(1));
    assert_eq!(TimeSpan::from_millis(u64::MAX).as_secs(), u64::MAX / 1000);
    assert_eq!(TimeSpan::from_secs(u64::MAX).as_secs(), u64::MAX);
}

#[test]
fn a_span_from_parts_needs_less_than_a_second_of_nanoseconds() {
    assert_eq!(TimeSpan::new(1, 500_000_000), Some(TimeSpan::from_millis(1_500)));
    assert_eq!(TimeSpan::new(0, 999_999_999).map(|span| span.subsec_nanos()), Some(999_999_999));
    assert_eq!(TimeSpan::new(0, 1_000_000_000), None);
    assert_eq!(TimeSpan::new(7, u32::MAX), None);
}

#[test]
fn only_the_empty_span_is_zero() {
    assert!(TimeSpan::from_secs(0).is_zero());
    assert!(TimeSpan::from_millis(0).is_zero());
    assert!(!TimeSpan::from_millis(1).is_zero());
    assert!(!TimeSpan::new(0, 1).unwrap().is_zero());
    assert!(!TimeSpan::from_secs(1).is_zero());
}

#[test]
fn exceeds_is_strictly_longer() {
    let limit = TimeSpan::from_millis(100);
    assert!(!TimeSpan::from_millis(99).exceeds(&limit));
    assert!(!TimeSpan::from_millis(100).exceeds(&limit));
    assert!(TimeSpan::from_millis(101).exceeds(&limit));
    assert!(TimeSpan::new(0, 100_000_001).unwrap().exceeds(&limit));
    // Seconds weigh more than any number of nanoseconds.
    assert!(TimeSpan::from_secs(1).exceeds(&TimeSpan::new(0, 999_999_999).unwrap()));
    assert!(!TimeSpan::new(0, 999_999_999).unwrap().exceeds(&TimeSpan::from_secs(1)));
    assert!(TimeSpan::from_secs(u64::MAX).exceeds(&TimeSpan::from_millis(u64::MAX)));
}
