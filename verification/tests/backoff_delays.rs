use xynpro::backoff::backoff_delay;
use xynpro::config::ExecutorConfig;
use xynpro::time::Span;

#[test]
fn default_delays_double_from_100ms_and_stop_at_10s() {
    let config = ExecutorConfig::default();
    let expected_ms: [u64; 9] = [100, 200, 400, 800, 1600, 3200, 6400, 10_000, 10_000];
    for (attempt, ms) in expected_ms.iter().enumerate() {
        assert_eq!(backoff_delay(&config, attempt), Span::from_millis(*ms));
    }
}

#[test]
fn delay_stays_at_the_cap_for_any_later_attempt() {
    let config = ExecutorConfig::default();
    assert_eq!(backoff_delay(&config, 64), Span::from_secs(10));
    assert_eq!(backoff_delay(&config, 1000), Span::from_secs(10));
    assert_eq!(backoff_delay(&config, usize::MAX), Span::from_secs(10));
}

#[test]
fn delay_just_under_the_cap_is_not_capped() {
    let config = ExecutorConfig::default()
        .with_base_delay(Span::from_nanos(3))
        .with_max_delay(Span::from_nanos(25));
    assert_eq!(backoff_delay(&config, 0), Span::from_nanos(3));
    assert_eq!(backoff_delay(&config, 3), Span::from_nanos(24));
    assert_eq!(backoff_delay(&config, 4), Span::from_nanos(25));
}

#[test]
fn zero_base_delay_never_waits() {
    let config = ExecutorConfig::default().with_base_delay(Span::from_nanos(0));
    assert_eq!(backoff_delay(&config, 0), Span::from_nanos(0));
    assert_eq!(backoff_delay(&config, usize::MAX), Span::from_nanos(0));
}

#[test]
fn base_delay_over_the_cap_is_the_cap() {
    let config = ExecutorConfig::default()
        .with_base_delay(Span::from_secs(20))
        .with_max_delay(Span::from_secs(10));
    assert_eq!(backoff_delay(&config, 0), Span::from_secs(10));
    assert_eq!(backoff_delay(&config, 5), Span::from_secs(10));
}

#[test]
fn largest_spans_do_not_overflow() {
    let config = ExecutorConfig::default()
        .with_base_delay(Span::from_nanos(u64::MAX - 1))
        .with_max_delay(Span::from_nanos(u64::MAX));
    assert_eq!(backoff_delay(&config, 0), Span::from_nanos(u64::MAX - 1));
    assert_eq!(backoff_delay(&config, 1), Span::from_nanos(u64::MAX));
}
