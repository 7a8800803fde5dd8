use xynpro::config::ExecutorConfig;
use xynpro::decimal::to_decimal;
use xynpro::time::{Moment, Span};

#[test]
fn spans_count_nanoseconds() {
    assert_eq!(Span::from_secs(60).nanos, 60_000_000_000);
    assert_eq!(Span::from_millis(100).nanos, 100_000_000);
    assert_eq!(Span::from_nanos(7).nanos, 7);
}

#[test]
fn spans_that_do_not_fit_are_the_longest_span() {
    assert_eq!(Span::from_secs(u64::MAX).nanos, u64::MAX);
    assert_eq!(Span::from_millis(u64::MAX).nanos, u64::MAX);
    assert_eq!(Span::from_secs(18_446_744_073).nanos, 18_446_744_073_000_000_000);
    assert_eq!(Span::from_secs(18_446_744_074).nanos, u64::MAX);
}

#[test]
fn elapsed_time_is_never_negative() {
    let early = Moment::from_nanos(10);
    let late = Moment::from_nanos(25);
    assert_eq!(late.since(early), Span::from_nanos(15));
    assert_eq!(early.since(late), Span::from_nanos(0));
    assert_eq!(late.since(late), Span::from_nanos(0));
}

#[test]
fn at_least_compares_lengths() {
    assert!(Span::from_secs(60).at_least(Span::from_secs(60)));
    assert!(Span::from_secs(61).at_least(Span::from_secs(60)));
    assert!(!Span::from_millis(59_999).at_least(Span::from_secs(60)));
}

#[test]
fn spans_print_as_durations_do() {
    assert_eq!(Span::from_secs(60).render(), "60s");
    assert_eq!(Span::from_millis(100).render(), "100ms");
    assert_eq!(Span::from_millis(1500).render(), "1.5s");
    assert_eq!(Span::from_nanos(0).render(), "0ns");
}

#[test]
fn decimal_text_of_counts() {
    assert_eq!(to_decimal(0), "0");
    assert_eq!(to_decimal(7), "7");
    assert_eq!(to_decimal(10), "10");
    assert_eq!(to_decimal(1234567890), "1234567890");
    assert_eq!(to_decimal(usize::MAX), usize::MAX.to_string());
}

#[test]
fn default_settings() {
    let config = ExecutorConfig::default();
    assert_eq!(config.max_retries, 3);
    assert_eq!(config.circuit_breaker_threshold, 10);
    assert_eq!(config.circuit_breaker_duration, Span::from_secs(60));
    assert_eq!(config.base_delay, Span::from_millis(100));
    assert_eq!(config.max_delay, Span::from_secs(10));
    assert_eq!(config.timeout, Span::from_secs(30));
    assert!(config.is_valid());
}

#[test]
fn each_setting_is_overridden_alone() {
    let base = ExecutorConfig::default();
    assert_eq!(base.with_max_retries(5), ExecutorConfig { max_retries: 5, ..base });
    assert_eq!(
        base.with_circuit_breaker_threshold(2),
        ExecutorConfig { circuit_breaker_threshold: 2, ..base }
    );
    assert_eq!(
        base.with_circuit_breaker_duration(Span::from_secs(1)),
        ExecutorConfig { circuit_breaker_duration: Span::from_secs(1), ..base }
    );
    assert_eq!(base.with_base_delay(Span::from_secs(1)), ExecutorConfig { base_delay: Span::from_secs(1), ..base });
    assert_eq!(base.with_max_delay(Span::from_secs(1)), ExecutorConfig { max_delay: Span::from_secs(1), ..base });
    assert_eq!(base.with_timeout(Span::from_secs(1)), ExecutorConfig { timeout: Span::from_secs(1), ..base });
    assert!(!base.with_circuit_breaker_threshold(0).is_valid());
}
