use idlewatch::{Span, Timestamp};

#[test]
fn span_from_secs_is_exact() {
    assert_eq!(Span::from_secs(60).nanos, 60_000_000_000);
    assert_eq!(Span::from_secs(0).nanos, 0);
    assert_eq!(Span::from_secs(u64::MAX).nanos, 18_446_744_073_709_551_615_000_000_000);
    assert_eq!(Span::from_nanos(17).nanos, 17);
}

#[test]
fn timestamp_from_secs_is_exact() {
    assert_eq!(Timestamp::from_secs(65).nanos, 65_000_000_000);
    assert_eq!(Timestamp::from_secs(u64::MAX).nanos, 18_446_744_073_709_551_615_000_000_000);
    assert_eq!(Timestamp::from_nanos(3).nanos, 3);
}

#[test]
fn duration_since_subtracts() {
    let earlier = Timestamp::from_nanos(1_500_000_000);
    let later = Timestamp::from_nanos(4_000_000_001);
    assert_eq!(later.saturating_duration_since(&earlier), Span::from_nanos(2_500_000_001));
    assert_eq!(later.saturating_duration_since(&later), Span::from_nanos(0));
}

#[test]
fn duration_since_saturates_at_zero() {
    let earlier = Timestamp::from_secs(1);
    let later = Timestamp::from_secs(4);
    assert_eq!(earlier.saturating_duration_since(&later), Span::from_nanos(0));
    assert_eq!(
        Timestamp::from_nanos(0).saturating_duration_since(&Timestamp::from_nanos(u128::MAX)),
        Span::from_nanos(0)
    );
    assert_eq!(
        Timestamp::from_nanos(u128::MAX).saturating_duration_since(&Timestamp::from_nanos(0)),
        Span::from_nanos(u128::MAX)
    );
}

#[test]
fn exceeds_is_strict() {
    let limit = Span::from_secs(60);
    assert!(!Span::from_secs(60).exceeds(&limit));
    assert!(!Span::from_secs(59).exceeds(&limit));
    assert!(Span::from_nanos(60_000_000_001).exceeds(&limit));
}

#[test]
fn span_splits_into_seconds_and_nanoseconds() {
    let span = Span::from_nanos(65_000_000_123);
    assert_eq!(span.whole_secs(), 65);
    assert_eq!(span.subsec_nanos(), 123);
    assert_eq!(Span::from_nanos(999_999_999).whole_secs(), 0);
    assert_eq!(Span::from_nanos(999_999_999).subsec_nanos(), 999_999_999);
    assert_eq!(Span::from_nanos(u128::MAX).whole_secs(), u128::MAX / 1_000_000_000);
}
