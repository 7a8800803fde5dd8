use xynpro::breaker::{Call, CircuitState, Decision, Step};
use xynpro::config::ExecutorConfig;
use xynpro::error_kind::ErrorKind;
use xynpro::executor::ResilientExecutor;
use xynpro::metrics::Metric;
use xynpro::run::{replay, AttemptOutcome, CallEnding};
use xynpro::time::{Moment, Span};

const MS: u64 = 1_000_000;
const SEC: u64 = 1_000_000_000;

fn at(nanos: u64) -> Moment {
    Moment::from_nanos(nanos)
}

fn disk_full(when: u64) -> AttemptOutcome {
    AttemptOutcome::Failed {
        error: ErrorKind::FileSystemError("disk full".to_string()),
        at: at(when),
        elapsed: Span::from_millis(5),
    }
}

fn names(metrics: &[Metric]) -> Vec<String> {
    metrics.iter().map(|m| m.name()).collect()
}

fn admitted(step: Step) -> Call {
    match step.decision {
        Decision::Attempt { call, .. } => call,
        Decision::Fail(error) => panic!("rejected: {}", error.render()),
    }
}

#[test]
fn new_executor_is_closed_and_has_counted_nothing() {
    let executor = ResilientExecutor::new(ExecutorConfig::default(), at(42));
    assert_eq!(executor.error_count(), 0);
    assert_eq!(executor.circuit_state(), CircuitState::Closed);
    assert_eq!(executor.last_error_time(), at(42));
    assert_eq!(executor.half_open_trial_count(), 0);
    assert_eq!(executor.config(), ExecutorConfig::default());
}

#[test]
fn always_failing_operation_uses_three_attempts() {
    let mut executor = ResilientExecutor::new(ExecutorConfig::default(), at(0));
    let outcomes = vec![disk_full(1), disk_full(2), disk_full(3), disk_full(4)];
    let report = replay(&mut executor, at(0), &outcomes);
    assert_eq!(report.attempts, 3);
    assert_eq!(report.waits, vec![Span::from_nanos(0), Span::from_millis(100), Span::from_millis(200)]);
    match report.ending {
        CallEnding::Failed(ErrorKind::RetryLimitExceeded { retries, last_error }) => {
            assert_eq!(retries, 3);
            assert!(last_error.contains("disk full"));
            assert_eq!(last_error, "File system error: disk full");
        }
        other => panic!("unexpected ending: {:?}", other),
    }
    assert_eq!(executor.error_count(), 3);
    assert_eq!(executor.circuit_state(), CircuitState::Closed);
    assert_eq!(executor.last_error_time(), at(3));
}

#[test]
fn always_failing_operation_uses_exactly_max_retries_attempts() {
    for n in 0..8usize {
        let config = ExecutorConfig::default().with_max_retries(n).with_circuit_breaker_threshold(100);
        let mut executor = ResilientExecutor::new(config, at(0));
        let outcomes: Vec<AttemptOutcome> = (0..20).map(|i| disk_full(i)).collect();
        let report = replay(&mut executor, at(0), &outcomes);
        assert_eq!(report.attempts, n);
        assert_eq!(report.waits.len(), n);
        match report.ending {
            CallEnding::Failed(ErrorKind::RetryLimitExceeded { retries, last_error }) => {
                assert_eq!(retries, n);
                if n == 0 {
                    assert_eq!(last_error, "Maximum retries reached");
                } else {
                    assert_eq!(last_error, "File system error: disk full");
                }
            }
            other => panic!("unexpected ending: {:?}", other),
        }
        assert_eq!(executor.error_count(), n);
    }
}

#[test]
fn timeout_ends_the_call_on_the_first_attempt() {
    let mut executor = ResilientExecutor::new(ExecutorConfig::default(), at(0));
    let outcomes = vec![AttemptOutcome::TimedOut, AttemptOutcome::Succeeded { elapsed: Span::from_millis(1) }];
    let report = replay(&mut executor, at(0), &outcomes);
    assert_eq!(report.attempts, 1);
    assert!(matches!(
        report.ending,
        CallEnding::Failed(ErrorKind::OperationTimeout { duration }) if duration == Span::from_secs(30)
    ));
    assert_eq!(executor.error_count(), 0);
    assert_eq!(executor.circuit_state(), CircuitState::Closed);
}

#[test]
fn timeout_step_reports_the_deadline_as_latency() {
    let mut executor = ResilientExecutor::new(ExecutorConfig::default(), at(0));
    let call = admitted(executor.begin_call(at(0)));
    let step = executor.record_timeout(call);
    assert_eq!(names(&step.metrics), vec!["error_manager.operation_timeout", "error_manager.operation_latency"]);
    assert!(matches!(step.metrics[1], Metric::Latency(span) if span == Span::from_secs(30)));
    assert!(matches!(
        step.decision,
        Decision::Fail(ErrorKind::OperationTimeout { duration }) if duration == Span::from_secs(30)
    ));
}

#[test]
fn second_failure_trips_a_breaker_with_threshold_two() {
    let config = ExecutorConfig::default().with_circuit_breaker_threshold(2);
    let mut executor = ResilientExecutor::new(config, at(0));
    let outcomes = vec![disk_full(10), disk_full(20), disk_full(30)];
    let report = replay(&mut executor, at(0), &outcomes);
    assert_eq!(report.attempts, 2);
    assert!(matches!(
        report.ending,
        CallEnding::Failed(ErrorKind::CircuitBreakerActivated { count: 2, duration })
            if duration == Span::from_secs(60)
    ));
    assert_eq!(executor.circuit_state(), CircuitState::Open(at(20)));
    assert_eq!(executor.error_count(), 2);

    let third = replay(&mut executor, at(20 + MS), &outcomes);
    assert_eq!(third.attempts, 0);
    assert!(third.waits.is_empty());
    assert!(matches!(
        third.ending,
        CallEnding::Failed(ErrorKind::CircuitBreakerActivated { count: 2, duration })
            if duration == Span::from_secs(60)
    ));
    assert_eq!(executor.circuit_state(), CircuitState::Open(at(20)));
}

#[test]
fn rejection_by_the_breaker_is_counted_as_circuit_opened() {
    let config = ExecutorConfig::default().with_circuit_breaker_threshold(1);
    let mut executor = ResilientExecutor::new(config, at(0));
    let call = admitted(executor.begin_call(at(0)));
    let error = ErrorKind::NetworkError("down".to_string());
    let tripped = executor.record_failure(call, &error, at(5), Span::from_millis(1));
    assert_eq!(
        names(&tripped.metrics),
        vec![
            "error_manager.failures",
            "error_manager.failures.Network error: down",
            "error_manager.circuit_tripped"
        ]
    );
    let rejected = executor.begin_call(at(6));
    assert_eq!(names(&rejected.metrics), vec!["error_manager.circuit_opened"]);
    assert!(matches!(rejected.decision, Decision::Fail(ErrorKind::CircuitBreakerActivated { count: 1, .. })));
}

#[test]
fn breaker_stays_shut_until_its_time_is_served() {
    let config = ExecutorConfig::default().with_circuit_breaker_threshold(1);
    let mut executor = ResilientExecutor::new(config, at(0));
    let report = replay(&mut executor, at(0), &vec![disk_full(SEC)]);
    assert!(matches!(report.ending, CallEnding::Failed(ErrorKind::CircuitBreakerActivated { .. })));
    assert!(!executor.check_circuit_state(at(SEC + 60 * SEC - 1)));
    assert_eq!(executor.circuit_state(), CircuitState::Open(at(SEC)));
    assert!(executor.check_circuit_state(at(SEC + 60 * SEC)));
    assert_eq!(executor.circuit_state(), CircuitState::HalfOpen);
}

#[test]
fn half_open_breaker_admits_one_trial_only() {
    let config = ExecutorConfig::default().with_circuit_breaker_threshold(1);
    let mut executor = ResilientExecutor::new(config, at(0));
    let _ = replay(&mut executor, at(0), &vec![disk_full(0)]);
    assert_eq!(executor.circuit_state(), CircuitState::Open(at(0)));

    let trial = executor.begin_call(at(61 * SEC));
    assert!(matches!(trial.decision, Decision::Attempt { call, after }
        if call.attempt == 0 && after == Span::from_nanos(0)));
    assert!(trial.metrics.is_empty());
    assert_eq!(executor.circuit_state(), CircuitState::HalfOpen);
    assert_eq!(executor.half_open_trial_count(), 1);

    let second = executor.begin_call(at(61 * SEC + 1));
    assert!(matches!(second.decision, Decision::Fail(ErrorKind::CircuitBreakerActivated { count: 1, .. })));
    assert_eq!(executor.circuit_state(), CircuitState::HalfOpen);
    assert_eq!(executor.half_open_trial_count(), 2);

    let third = executor.begin_call(at(500 * SEC));
    assert!(matches!(third.decision, Decision::Fail(ErrorKind::CircuitBreakerActivated { .. })));
    assert_eq!(executor.half_open_trial_count(), 3);
}

#[test]
fn successful_trial_closes_the_breaker() {
    let config = ExecutorConfig::default().with_circuit_breaker_threshold(1);
    let mut executor = ResilientExecutor::new(config, at(0));
    let _ = replay(&mut executor, at(0), &vec![disk_full(0)]);
    let report = replay(
        &mut executor,
        at(60 * SEC),
        &vec![AttemptOutcome::Succeeded { elapsed: Span::from_millis(3) }],
    );
    assert_eq!(report.attempts, 1);
    assert!(matches!(report.ending, CallEnding::Returned));
    assert_eq!(executor.circuit_state(), CircuitState::Closed);
    assert_eq!(executor.error_count(), 0);
    assert_eq!(executor.half_open_trial_count(), 0);
}

#[test]
fn failed_trial_opens_the_breaker_afresh() {
    let config = ExecutorConfig::default().with_circuit_breaker_threshold(1);
    let mut executor = ResilientExecutor::new(config, at(0));
    let _ = replay(&mut executor, at(0), &vec![disk_full(0)]);
    let report = replay(&mut executor, at(60 * SEC), &vec![disk_full(61 * SEC), disk_full(62 * SEC)]);
    assert_eq!(report.attempts, 1);
    assert!(matches!(
        report.ending,
        CallEnding::Failed(ErrorKind::CircuitBreakerActivated { count: 2, .. })
    ));
    assert_eq!(executor.circuit_state(), CircuitState::Open(at(61 * SEC)));
    assert_eq!(executor.half_open_trial_count(), 0);
    assert!(!executor.check_circuit_state(at(120 * SEC)));
    assert!(executor.check_circuit_state(at(121 * SEC)));
}

#[test]
fn failed_trial_opens_the_breaker_even_under_a_raised_threshold() {
    let config = ExecutorConfig::default().with_circuit_breaker_threshold(1);
    let mut executor = ResilientExecutor::new(config, at(0));
    let _ = replay(&mut executor, at(0), &vec![disk_full(0)]);
    executor.update_config(config.with_circuit_breaker_threshold(50));
    let report = replay(&mut executor, at(60 * SEC), &vec![disk_full(61 * SEC), disk_full(62 * SEC)]);
    assert_eq!(report.attempts, 1);
    assert!(matches!(report.ending, CallEnding::Failed(ErrorKind::CircuitBreakerActivated { count: 2, .. })));
    assert_eq!(executor.circuit_state(), CircuitState::Open(at(61 * SEC)));
}

#[test]
fn success_after_nine_failures_resets_the_count() {
    let mut executor = ResilientExecutor::new(ExecutorConfig::default(), at(0));
    for round in 0..3u64 {
        let outcomes = vec![disk_full(round), disk_full(round), disk_full(round)];
        let report = replay(&mut executor, at(round), &outcomes);
        assert!(matches!(report.ending, CallEnding::Failed(ErrorKind::RetryLimitExceeded { retries: 3, .. })));
        assert_eq!(executor.circuit_state(), CircuitState::Closed);
    }
    assert_eq!(executor.error_count(), 9);
    let report = replay(&mut executor, at(9), &vec![AttemptOutcome::Succeeded { elapsed: Span::from_millis(1) }]);
    assert!(matches!(report.ending, CallEnding::Returned));
    assert_eq!(executor.error_count(), 0);
    assert_eq!(executor.circuit_state(), CircuitState::Closed);
}

#[test]
fn tenth_failure_in_a_row_trips_the_default_breaker() {
    let mut executor = ResilientExecutor::new(ExecutorConfig::default(), at(0));
    for round in 0..3u64 {
        let _ = replay(&mut executor, at(round), &vec![disk_full(round), disk_full(round), disk_full(round)]);
    }
    let report = replay(&mut executor, at(10), &vec![disk_full(11), disk_full(12)]);
    assert_eq!(report.attempts, 1);
    assert!(matches!(
        report.ending,
        CallEnding::Failed(ErrorKind::CircuitBreakerActivated { count: 10, .. })
    ));
    assert_eq!(executor.circuit_state(), CircuitState::Open(at(11)));
}

#[test]
fn success_reports_counter_and_latency() {
    let mut executor = ResilientExecutor::new(ExecutorConfig::default(), at(0));
    let _ = admitted(executor.begin_call(at(0)));
    let metrics = executor.record_success(Span::from_millis(12));
    assert_eq!(names(&metrics), vec!["error_manager.successes", "error_manager.operation_latency"]);
    assert!(matches!(metrics[1], Metric::Latency(span) if span == Span::from_millis(12)));
}

#[test]
fn retry_steps_wait_the_backoff_and_report_the_failure() {
    let mut executor = ResilientExecutor::new(ExecutorConfig::default(), at(0));
    let call = admitted(executor.begin_call(at(0)));
    let error = ErrorKind::DatabaseError("locked".to_string());
    let first = executor.record_failure(call, &error, at(1), Span::from_millis(2));
    assert_eq!(names(&first.metrics), vec!["error_manager.failures", "error_manager.failures.Database error: locked"]);
    let call = match first.decision {
        Decision::Attempt { after, call } => {
            assert_eq!(after, Span::from_millis(100));
            assert_eq!(call.attempt, 1);
            call
        }
        other => panic!("unexpected decision: {:?}", other),
    };
    let second = executor.record_failure(call, &error, at(2), Span::from_millis(2));
    let call = match second.decision {
        Decision::Attempt { after, call } => {
            assert_eq!(after, Span::from_millis(200));
            assert_eq!(call.attempt, 2);
            call
        }
        other => panic!("unexpected decision: {:?}", other),
    };
    let last = executor.record_failure(call, &error, at(3), Span::from_millis(7));
    assert_eq!(
        names(&last.metrics),
        vec![
            "error_manager.failures",
            "error_manager.failures.Database error: locked",
            "error_manager.max_retries_exceeded",
            "error_manager.operation_latency"
        ]
    );
    assert!(matches!(last.metrics[3], Metric::Latency(span) if span == Span::from_millis(7)));
    assert!(matches!(last.decision, Decision::Fail(ErrorKind::RetryLimitExceeded { retries: 3, .. })));
    assert_eq!(executor.error_count(), 3);
    assert_eq!(executor.last_error_time(), at(3));
}

#[test]
fn call_in_flight_keeps_the_settings_it_started_with() {
    let old = ExecutorConfig::default();
    let mut executor = ResilientExecutor::new(old, at(0));
    let call = admitted(executor.begin_call(at(0)));
    let new = old
        .with_max_retries(1)
        .with_circuit_breaker_threshold(1)
        .with_base_delay(Span::from_secs(5))
        .with_timeout(Span::from_secs(1));
    executor.update_config(new);
    assert_eq!(executor.config(), new);
    assert_eq!(call.config, old);

    let error = ErrorKind::NetworkError("down".to_string());
    let step = executor.record_failure(call, &error, at(1), Span::from_millis(1));
    match step.decision {
        Decision::Attempt { after, call } => {
            assert_eq!(after, Span::from_millis(100));
            assert_eq!(call.config, old);
        }
        other => panic!("unexpected decision: {:?}", other),
    }
    let timed_out = executor.record_timeout(call);
    assert!(matches!(
        timed_out.decision,
        Decision::Fail(ErrorKind::OperationTimeout { duration }) if duration == Span::from_secs(30)
    ));

    let later = admitted(executor.begin_call(at(2)));
    assert_eq!(later.config, new);
    let step = executor.record_failure(later, &error, at(3), Span::from_millis(1));
    assert!(matches!(step.decision, Decision::Fail(ErrorKind::CircuitBreakerActivated { count: 2, .. })));
}

#[test]
fn update_config_changes_only_the_settings() {
    let mut executor = ResilientExecutor::new(ExecutorConfig::default(), at(7));
    let _ = replay(&mut executor, at(8), &vec![disk_full(9)]);
    let new = ExecutorConfig::default().with_max_retries(9);
    executor.update_config(new);
    assert_eq!(executor.config(), new);
    assert_eq!(executor.error_count(), 1);
    assert_eq!(executor.circuit_state(), CircuitState::Closed);
    assert_eq!(executor.last_error_time(), at(9));
}

#[test]
fn call_without_outcomes_is_pending() {
    let mut executor = ResilientExecutor::new(ExecutorConfig::default(), at(0));
    let report = replay(&mut executor, at(0), &vec![disk_full(1)]);
    assert_eq!(report.attempts, 1);
    assert_eq!(report.waits, vec![Span::from_nanos(0)]);
    assert!(matches!(report.ending, CallEnding::Pending));
    assert_eq!(executor.error_count(), 1);
}

#[test]
fn opening_and_closing_by_hand() {
    let mut executor = ResilientExecutor::new(ExecutorConfig::default(), at(0));
    executor.open_circuit(at(5));
    assert_eq!(executor.circuit_state(), CircuitState::Open(at(5)));
    executor.close_circuit();
    assert_eq!(executor.circuit_state(), CircuitState::Closed);
    assert_eq!(executor.half_open_trial_count(), 0);
}

#[test]
fn threshold_zero_trips_on_the_first_failure() {
    let config = ExecutorConfig::default().with_circuit_breaker_threshold(0);
    let mut executor = ResilientExecutor::new(config, at(0));
    let report = replay(&mut executor, at(0), &vec![disk_full(1), disk_full(2)]);
    assert_eq!(report.attempts, 1);
    assert!(matches!(report.ending, CallEnding::Failed(ErrorKind::CircuitBreakerActivated { count: 1, .. })));
}

#[test]
fn timed_out_trial_leaves_the_breaker_half_open() {
    let config = ExecutorConfig::default().with_circuit_breaker_threshold(1);
    let mut executor = ResilientExecutor::new(config, at(0));
    let _ = replay(&mut executor, at(0), &vec![disk_full(0)]);
    let report = replay(&mut executor, at(60 * SEC), &vec![AttemptOutcome::TimedOut]);
    assert!(matches!(report.ending, CallEnding::Failed(ErrorKind::OperationTimeout { .. })));
    assert_eq!(executor.circuit_state(), CircuitState::HalfOpen);
    assert_eq!(executor.error_count(), 1);
    let next = replay(&mut executor, at(1000 * SEC), &vec![AttemptOutcome::TimedOut]);
    assert_eq!(next.attempts, 0);
    assert!(matches!(next.ending, CallEnding::Failed(ErrorKind::CircuitBreakerActivated { .. })));
    executor.close_circuit();
    let after = replay(&mut executor, at(1001 * SEC), &vec![AttemptOutcome::Succeeded { elapsed: Span::from_millis(1) }]);
    assert!(matches!(after.ending, CallEnding::Returned));
}
