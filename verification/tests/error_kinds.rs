use xynpro::error_kind::{
    git_operation_failed, handle_build_error, handle_main_error, handle_metrics_error, unknown_operation_failed,
    Cause, ErrorKind, Severity,
};
use xynpro::time::Span;

fn text(s: &str) -> String {
    s.to_string()
}

fn simple_kinds() -> Vec<(ErrorKind, &'static str)> {
    vec![
        (ErrorKind::FileSystemError(text("x")), "File system error: x"),
        (ErrorKind::EnvVarError(text("x")), "Environment variable error: x"),
        (ErrorKind::ProjectCreationError(text("x")), "Project creation error: x"),
        (ErrorKind::MetricsInitError(text("x")), "Metrics initialization error: x"),
        (ErrorKind::LoggingError(text("x")), "Logging error: x"),
        (ErrorKind::DatabaseError(text("x")), "Database error: x"),
        (ErrorKind::NetworkError(text("x")), "Network error: x"),
        (ErrorKind::AuthenticationError(text("x")), "Authentication error: x"),
        (ErrorKind::AuthorizationError(text("x")), "Authorization error: x"),
        (ErrorKind::ValidationError(text("x")), "Validation error: x"),
    ]
}

#[test]
fn every_plain_kind_has_its_message_and_is_information() {
    for (kind, message) in simple_kinds() {
        assert_eq!(kind.render(), message);
        assert_eq!(kind.severity(), Severity::Info);
        assert_eq!(kind.span(), Span::from_nanos(0));
    }
}

#[test]
fn operation_failed_message_and_severity() {
    let kind = ErrorKind::OperationFailed { operation: text("sync"), details: text("disk full") };
    assert_eq!(kind.render(), "Operation failed during sync: disk full");
    assert_eq!(kind.severity(), Severity::Error);
}

#[test]
fn retry_limit_message_and_severity() {
    let kind = ErrorKind::RetryLimitExceeded { retries: 3, last_error: text("disk full") };
    assert_eq!(kind.render(), "Retry limit exceeded after 3 attempts: disk full");
    assert_eq!(kind.severity(), Severity::Error);
}

#[test]
fn breaker_message_and_severity() {
    let kind = ErrorKind::CircuitBreakerActivated { count: 10, duration: Span::from_secs(60) };
    assert_eq!(kind.render(), "Circuit breaker activated after 10 errors in 60s");
    assert_eq!(kind.severity(), Severity::Warning);
    assert_eq!(kind.span(), Span::from_secs(60));
}

#[test]
fn timeout_message_and_severity() {
    let kind = ErrorKind::OperationTimeout { duration: Span::from_millis(1500) };
    assert_eq!(kind.render(), "Operation timed out after 1.5s");
    assert_eq!(kind.severity(), Severity::Warning);
    assert_eq!(kind.span(), Span::from_millis(1500));
}

#[test]
fn render_with_takes_the_span_text_as_given() {
    let breaker = ErrorKind::CircuitBreakerActivated { count: 2, duration: Span::from_secs(60) };
    assert_eq!(breaker.render_with("a minute"), "Circuit breaker activated after 2 errors in a minute");
    let timeout = ErrorKind::OperationTimeout { duration: Span::from_secs(30) };
    assert_eq!(timeout.render_with("half a minute"), "Operation timed out after half a minute");
    let plain = ErrorKind::NetworkError(text("down"));
    assert_eq!(plain.render_with("ignored"), "Network error: down");
}

#[test]
fn build_failures_are_classified() {
    let io = handle_build_error(Cause::Io(text("denied")));
    assert!(matches!(io, ErrorKind::FileSystemError(ref m) if m == "denied"));
    let env = handle_build_error(Cause::EnvVar(text("unset")));
    assert!(matches!(env, ErrorKind::OperationFailed { ref operation, ref details }
        if operation == "Build" && details == "unset"));
    let other = handle_build_error(Cause::Other(text("odd")));
    assert!(matches!(other, ErrorKind::OperationFailed { ref operation, ref details }
        if operation == "Build" && details == "odd"));
}

#[test]
fn entry_point_failures_are_classified() {
    let io = handle_main_error(Cause::Io(text("denied")));
    assert!(matches!(io, ErrorKind::FileSystemError(ref m) if m == "denied"));
    let env = handle_main_error(Cause::EnvVar(text("unset")));
    assert!(matches!(env, ErrorKind::EnvVarError(ref m) if m == "unset"));
    let other = handle_main_error(Cause::Other(text("odd")));
    assert!(matches!(other, ErrorKind::ProjectCreationError(ref m) if m == "odd"));
}

#[test]
fn other_classifications() {
    assert!(matches!(handle_metrics_error(text("port")), ErrorKind::MetricsInitError(ref m) if m == "port"));
    assert_eq!(git_operation_failed(text("no remote")).render(), "Operation failed during Git operation failed: no remote");
    assert_eq!(unknown_operation_failed(text("eh")).render(), "Operation failed during Unknown operation: eh");
}
