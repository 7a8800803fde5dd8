//! The closed set of failure kinds, their severity and their text.
use crate::decimal::{decimal, to_decimal};
use crate::time::{duration_debug, Span};
use vstd::prelude::*;
use vstd::string::StringExecFns;

verus! {

/// How loudly a failure is logged.
#[derive(Clone, Copy, Debug, PartialEq, Eq, Structural)]
pub enum Severity {
    Error,
    Warning,
    Info,
}

/// A failure, with what is needed to describe it.
#[derive(Debug)]
pub enum ErrorKind {
    /// An operation failed; `details` is the text of the cause.
    OperationFailed { operation: String, details: String },
    /// Every allowed attempt failed; `last_error` is the text of the last failure.
    RetryLimitExceeded { retries: usize, last_error: String },
    /// The circuit breaker is open, after `count` failures, for `duration`.
    CircuitBreakerActivated { count: usize, duration: Span },
    /// An attempt did not finish within `duration`.
    OperationTimeout { duration: Span },
    /// A file or directory could not be read or written.
    FileSystemError(String),
    /// An environment variable was missing or malformed.
    EnvVarError(String),
    /// A project could not be set up.
    ProjectCreationError(String),
    /// The metrics sink could not be started.
    MetricsInitError(String),
    /// A log record could not be written.
    LoggingError(String),
    /// A database call failed.
    DatabaseError(String),
    /// A network call failed.
    NetworkError(String),
    /// The caller could not be identified.
    AuthenticationError(String),
    /// The caller is not allowed to do this.
    AuthorizationError(String),
    /// An input did not pass validation.
    ValidationError(String),
}

/// An [`ErrorKind`] as a mathematical value: texts are sequences of characters.
pub ghost enum ErrorModel {
    OperationFailed { operation: Seq<char>, details: Seq<char> },
    RetryLimitExceeded { retries: usize, last_error: Seq<char> },
    CircuitBreakerActivated { count: usize, duration: Span },
    OperationTimeout { duration: Span },
    FileSystemError(Seq<char>),
    EnvVarError(Seq<char>),
    ProjectCreationError(Seq<char>),
    MetricsInitError(Seq<char>),
    LoggingError(Seq<char>),
    DatabaseError(Seq<char>),
    NetworkError(Seq<char>),
    AuthenticationError(Seq<char>),
    AuthorizationError(Seq<char>),
    ValidationError(Seq<char>),
}

impl View for ErrorKind {
    type V = ErrorModel;

    open spec fn view(&self) -> ErrorModel {
        match self {
            ErrorKind::OperationFailed { operation, details } => ErrorModel::OperationFailed {
                operation: operation@,
                details: details@,
            },
            ErrorKind::RetryLimitExceeded { retries, last_error } => ErrorModel::RetryLimitExceeded {
                retries: *retries,
                last_error: last_error@,
            },
            ErrorKind::CircuitBreakerActivated { count, duration } => ErrorModel::CircuitBreakerActivated {
                count: *count,
                duration: *duration,
            },
            ErrorKind::OperationTimeout { duration } => ErrorModel::OperationTimeout { duration: *duration },
            ErrorKind::FileSystemError(message) => ErrorModel::FileSystemError(message@),
            ErrorKind::EnvVarError(message) => ErrorModel::EnvVarError(message@),
            ErrorKind::ProjectCreationError(message) => ErrorModel::ProjectCreationError(message@),
            ErrorKind::MetricsInitError(message) => ErrorModel::MetricsInitError(message@),
            ErrorKind::LoggingError(message) => ErrorModel::LoggingError(message@),
            ErrorKind::DatabaseError(message) => ErrorModel::DatabaseError(message@),
            ErrorKind::NetworkError(message) => ErrorModel::NetworkError(message@),
            ErrorKind::AuthenticationError(message) => ErrorModel::AuthenticationError(message@),
            ErrorKind::AuthorizationError(message) => ErrorModel::AuthorizationError(message@),
            ErrorKind::ValidationError(message) => ErrorModel::ValidationError(message@),
        }
    }
}

impl ErrorModel {
    /// The severity of each kind: failed operations and exhausted retries are errors, an
    /// open breaker and a timeout are warnings, everything else is information.
    pub open spec fn severity(self) -> Severity {
        match self {
            ErrorModel::OperationFailed { .. } | ErrorModel::RetryLimitExceeded { .. } => Severity::Error,
            ErrorModel::CircuitBreakerActivated { .. } | ErrorModel::OperationTimeout { .. } => Severity::Warning,
            _ => Severity::Info,
        }
    }

    /// The length of time that this kind carries, zero for a kind that carries none.
    pub open spec fn span(self) -> Span {
        match self {
            ErrorModel::CircuitBreakerActivated { duration, .. } => duration,
            ErrorModel::OperationTimeout { duration } => duration,
            _ => Span { nanos: 0 },
        }
    }

    /// The message of this failure, where `span_text` is the text of the length of time
    /// that it carries.
    pub open spec fn rendered_with(self, span_text: Seq<char>) -> Seq<char> {
        match self {
            ErrorModel::OperationFailed { operation, details } => "Operation failed during "@ + operation
                + ": "@ + details,
            ErrorModel::RetryLimitExceeded { retries, last_error } => "Retry limit exceeded after "@
                + decimal(retries as nat) + " attempts: "@ + last_error,
            ErrorModel::CircuitBreakerActivated { count, .. } => "Circuit breaker activated after "@
                + decimal(count as nat) + " errors in "@ + span_text,
            ErrorModel::OperationTimeout { .. } => "Operation timed out after "@ + span_text,
            ErrorModel::FileSystemError(message) => "File system error: "@ + message,
            ErrorModel::EnvVarError(message) => "Environment variable error: "@ + message,
            ErrorModel::ProjectCreationError(message) => "Project creation error: "@ + message,
            ErrorModel::MetricsInitError(message) => "Metrics initialization error: "@ + message,
            ErrorModel::LoggingError(message) => "Logging error: "@ + message,
            ErrorModel::DatabaseError(message) => "Database error: "@ + message,
            ErrorModel::NetworkError(message) => "Network error: "@ + message,
            ErrorModel::AuthenticationError(message) => "Authentication error: "@ + message,
            ErrorModel::AuthorizationError(message) => "Authorization error: "@ + message,
            ErrorModel::ValidationError(message) => "Validation error: "@ + message,
        }
    }

    /// The message of this failure; a length of time is written as `std::time::Duration`
    /// prints it for debugging.
    pub open spec fn rendered(self) -> Seq<char> {
        self.rendered_with(duration_debug(self.span().nanos))
    }
}

/// `head` followed by `tail`.
fn prefixed(head: &str, tail: &str) -> (text: String)
    ensures
        text@ == head@ + tail@,
{
    let mut text = String::from_str(head);
    text.append(tail);
    text
}

impl ErrorKind {
    /// The severity at which this failure is logged.
    pub fn severity(&self) -> (level: Severity)
        ensures
            level == self@.severity(),
    {
        match self {
            ErrorKind::OperationFailed { .. } | ErrorKind::RetryLimitExceeded { .. } => Severity::Error,
            ErrorKind::CircuitBreakerActivated { .. } | ErrorKind::OperationTimeout { .. } => Severity::Warning,
            _ => Severity::Info,
        }
    }

    /// The length of time that this failure carries, zero where it carries none.
    pub fn span(&self) -> (span: Span)
        ensures
            span == self@.span(),
    {
        match self {
            ErrorKind::CircuitBreakerActivated { duration, .. } => *duration,
            ErrorKind::OperationTimeout { duration } => *duration,
            _ => Span { nanos: 0 },
        }
    }

    /// The message of this failure, given the text of the length of time that it carries.
    pub fn render_with(&self, span_text: &str) -> (text: String)
        ensures
            text@ == self@.rendered_with(span_text@),
    {
        match self {
            ErrorKind::OperationFailed { operation, details } => {
                let mut text = prefixed("Operation failed during ", operation.as_str());
                text.append(": ");
                text.append(details.as_str());
                text
            },
            ErrorKind::RetryLimitExceeded { retries, last_error } => {
                let count = to_decimal(*retries);
                let mut text = prefixed("Retry limit exceeded after ", count.as_str());
                text.append(" attempts: ");
                text.append(last_error.as_str());
                text
            },
            ErrorKind::CircuitBreakerActivated { count, .. } => {
                let count = to_decimal(*count);
                let mut text = prefixed("Circuit breaker activated after ", count.as_str());
                text.append(" errors in ");
                text.append(span_text);
                text
            },
            ErrorKind::OperationTimeout { .. } => prefixed("Operation timed out after ", span_text),
            ErrorKind::FileSystemError(message) => prefixed("File system error: ", message.as_str()),
            ErrorKind::EnvVarError(message) => prefixed("Environment variable error: ", message.as_str()),
            ErrorKind::ProjectCreationError(message) => prefixed("Project creation error: ", message.as_str()),
            ErrorKind::MetricsInitError(message) => prefixed("Metrics initialization error: ", message.as_str()),
            ErrorKind::LoggingError(message) => prefixed("Logging error: ", message.as_str()),
            ErrorKind::DatabaseError(message) => prefixed("Database error: ", message.as_str()),
            ErrorKind::NetworkError(message) => prefixed("Network error: ", message.as_str()),
            ErrorKind::AuthenticationError(message) => prefixed("Authentication error: ", message.as_str()),
            ErrorKind::AuthorizationError(message) => prefixed("Authorization error: ", message.as_str()),
            ErrorKind::ValidationError(message) => prefixed("Validation error: ", message.as_str()),
        }
    }

    /// The message of this failure.
    pub fn render(&self) -> (text: String)
        ensures
            text@ == self@.rendered(),
    {
        let span_text = self.span().render();
        self.render_with(span_text.as_str())
    }
}

/// What is known of a lower-level failure once it has been inspected: the kind it was
/// recognised as, and its text.
#[derive(Debug)]
pub enum Cause {
    /// An I/O failure of the operating system.
    Io(String),
    /// A failure to read an environment variable.
    EnvVar(String),
    /// Anything else.
    Other(String),
}

/// Classifies a failure of the build step: an I/O failure is a file-system error, anything
/// else a failed `Build` operation with the failure's text as details.
pub fn handle_build_error(cause: Cause) -> (error: ErrorKind)
    ensures
        error@ == (match cause {
            Cause::Io(message) => ErrorModel::FileSystemError(message@),
            Cause::EnvVar(message) => ErrorModel::OperationFailed { operation: "Build"@, details: message@ },
            Cause::Other(message) => ErrorModel::OperationFailed { operation: "Build"@, details: message@ },
        }),
{
    match cause {
        Cause::Io(message) => ErrorKind::FileSystemError(message),
        Cause::EnvVar(message) => ErrorKind::OperationFailed {
            operation: String::from_str("Build"),
            details: message,
        },
        Cause::Other(message) => ErrorKind::OperationFailed {
            operation: String::from_str("Build"),
            details: message,
        },
    }
}

/// Classifies a failure of the program's entry point: an I/O failure is a file-system
/// error, an environment failure an environment-variable error, anything else a
/// project-creation error.
pub fn handle_main_error(cause: Cause) -> (error: ErrorKind)
    ensures
        error@ == (match cause {
            Cause::Io(message) => ErrorModel::FileSystemError(message@),
            Cause::EnvVar(message) => ErrorModel::EnvVarError(message@),
            Cause::Other(message) => ErrorModel::ProjectCreationError(message@),
        }),
{
    match cause {
        Cause::Io(message) => ErrorKind::FileSystemError(message),
        Cause::EnvVar(message) => ErrorKind::EnvVarError(message),
        Cause::Other(message) => ErrorKind::ProjectCreationError(message),
    }
}

/// Classifies a failure to start the metrics sink, given the failure's text.
pub fn handle_metrics_error(message: String) -> (error: ErrorKind)
    ensures
        error@ == ErrorModel::MetricsInitError(message@),
{
    ErrorKind::MetricsInitError(message)
}

/// Classifies a failure reported by the version-control tool, given the failure's text.
pub fn git_operation_failed(details: String) -> (error: ErrorKind)
    ensures
        error@ == (ErrorModel::OperationFailed { operation: "Git operation failed"@, details: details@ }),
{
    ErrorKind::OperationFailed { operation: String::from_str("Git operation failed"), details }
}

/// Classifies a failure of which nothing is known but its text.
pub fn unknown_operation_failed(details: String) -> (error: ErrorKind)
    ensures
        error@ == (ErrorModel::OperationFailed { operation: "Unknown operation"@, details: details@ }),
{
    ErrorKind::OperationFailed { operation: String::from_str("Unknown operation"), details }
}

} // verus!
