//! The test files of a new project.
use vstd::prelude::*;
use vstd::string::StringExecFns;

verus! {

/// What `tests/constants_tests.rs` holds in a new project.
pub const CONSTANTS_TESTS_TEXT: &'static str = r#"// tests/constants_tests.rs ~=#######D]======A===r===c====M===o===o===n=====<Lord[TESTS]Xyn>=====S===t===u===d===i===o===s======[R|$>

#[cfg(test)]
mod tests {{
    use crate::constants::*;
    use std::env;

    #[test]
    fn test_project_directories() {{
        let expected_directories = vec![
            "src/omnixtracker",
            "src/constants",
            "src/utils",
            "tests",
            "Xdocs",
            "Xtls",
        ];
        assert_eq!(PROJECT_DIRECTORIES.to_vec(), expected_directories);
    }}

    #[test]
    fn test_password_salt_length() {{
        assert_eq!(PASSWORD_SALT_LENGTH, 32);
    }}

    #[test]
    fn test_password_hash_iterations() {{
        assert_eq!(PASSWORD_HASH_ITERATIONS, 100_000);
    }}

    #[test]
    fn test_jwt_expiration() {{
        assert_eq!(JWT_EXPIRATION, 3600);
    }}

    #[test]
    fn test_rate_limit_window() {{
        assert_eq!(RATE_LIMIT_WINDOW, 60);
    }}

    #[test]
    fn test_rate_limit_max_requests() {{
        assert_eq!(RATE_LIMIT_MAX_REQUESTS, 100);
    }}

    #[test]
    fn test_enable_experimental_features() {{
        assert_eq!(ENABLE_EXPERIMENTAL_FEATURES, false);
    }}

    #[test]
    fn test_use_legacy_auth() {{
        assert_eq!(USE_LEGACY_AUTH, false);
    }}

    #[test]
    fn test_prometheus_listener_default() {{
        env::remove_var("PROMETHEUS_LISTENER");
        assert_eq!(&*PROMETHEUS_LISTENER, "0.0.0.0:9001");
    }}

    #[test]
    fn test_initial_log_level_default() {{
        env::remove_var("INITIAL_LOG_LEVEL");
        assert_eq!(*INITIAL_LOG_LEVEL, tracing::Level::INFO);
    }}

    #[test]
    fn test_log_file_path_default() {{
        env::remove_var("LOG_FILE_PATH");
        assert_eq!(&*LOG_FILE_PATH, "xynpro.log");
    }}

    #[test]
    fn test_git_remote_default() {{
        env::remove_var("GIT_REMOTE");
        assert_eq!(&*GIT_REMOTE, "origin");
    }}

    #[test]
    fn test_git_branch_default() {{
        env::remove_var("GIT_BRANCH");
        assert_eq!(&*GIT_BRANCH, "main");
    }}

    #[test]
    fn test_git_commit_message_default() {{
        env::remove_var("GIT_COMMIT_MESSAGE");
        assert_eq!(&*GIT_COMMIT_MESSAGE, "Automated update via xyngit");
    }}

    #[test]
    fn test_circuit_breaker_threshold_default() {{
        env::remove_var("CIRCUIT_BREAKER_THRESHOLD");
        assert_eq!(*CIRCUIT_BREAKER_THRESHOLD, 10);
    }}

    #[test]
    fn test_circuit_breaker_duration_default() {{
        env::remove_var("CIRCUIT_BREAKER_DURATION");
        assert_eq!(*CIRCUIT_BREAKER_DURATION, std::time::Duration::from_secs(60));
    }}

    #[test]
    fn test_base_delay_default() {{
        env::remove_var("BASE_DELAY");
        assert_eq!(*BASE_DELAY, std::time::Duration::from_millis(100));
    }}

    #[test]
    fn test_max_delay_default() {{
        env::remove_var("MAX_DELAY");
        assert_eq!(*MAX_DELAY, std::time::Duration::from_secs(10));
    }}

    #[test]
    fn test_default_timeout_default() {{
        env::remove_var("DEFAULT_TIMEOUT");
        assert_eq!(*DEFAULT_TIMEOUT, std::time::Duration::from_secs(30));
    }}

    #[test]
    fn test_max_retries_default() {{
        env::remove_var("MAX_RETRIES");
        assert_eq!(get_max_retries(), 3);
    }}
}}
"#;

/// The text of `tests/constants_tests.rs`, the same for every project.
pub fn generate_constants_tests_content() -> (text: String)
    ensures
        text@ == CONSTANTS_TESTS_TEXT@,
{
    String::from_str(CONSTANTS_TESTS_TEXT)
}

/// The opening stretch of `tests/omnixerror_tests.rs`.
pub const OMNIXERROR_TESTS_PART_0: &'static str = r#"// tests/omnixerror_tests.rs ~=#######D]======A===r===c====M===o===o===n=====<Lord[TESTS]Xyn>=====S===t===u===d===i===o===s======[R|$>

#[cfg(test)]
mod tests {
    use "#;

/// The closing stretch of `tests/omnixerror_tests.rs`.
pub const OMNIXERROR_TESTS_PART_1: &'static str = r#"::omnixtracker::OmniXError;
    use std::time::Duration;

    #[test]
    fn test_operation_failed_error() {
        let error = OmniXError::OperationFailed {
            operation: "test".to_string(),
            details: "Some error occurred".to_string() 
        };
        assert_eq!(format!("{}", error), "Operation failed during test: Some error occurred");
    }

    #[test]
    fn test_retry_limit_exceeded_error() {
        let error = OmniXError::RetryLimitExceeded {
            retries: 5,
            last_error: "Last attempt failed".to_string(),
        };
        assert_eq!(format!("{}", error), "Retry limit exceeded after 5 attempts: Last attempt failed");
    }

    #[test]
    fn test_circuit_breaker_activated_error() {
        let error = OmniXError::CircuitBreakerActivated {
            count: 10,
            duration: Duration::from_secs(60),
        };
        assert_eq!(format!("{}", error), "Circuit breaker activated after 10 errors in 60s");
    }

    #[test]
    fn test_operation_timeout_error() {
        let error = OmniXError::OperationTimeout {
            duration: Duration::from_secs(30),
        };
        assert_eq!(format!("{}", error), "Operation timed out after 30s");
    }

    #[test]
    fn test_file_system_error() {
        let error = OmniXError::FileSystemError("Disk not found".to_string());
        assert_eq!(format!("{}", error), "File system error: Disk not found");
    }

    #[test]
    fn test_env_var_error() {
        let error = OmniXError::EnvVarError("Missing environment variable".to_string());
        assert_eq!(format!("{}", error), "Environment variable error: Missing environment variable");
    }

    #[test]
    fn test_project_creation_error() {
        let error = OmniXError::ProjectCreationError("Unable to create project".to_string());
        assert_eq!(format!("{}", error), "Project creation error: Unable to create project");
    }

    #[test]
    fn test_metrics_init_error() {
        let error = OmniXError::MetricsInitError("Failed to initialize metrics".to_string());
        assert_eq!(format!("{}", error), "Metrics initialization error: Failed to initialize metrics");
    }

    #[test]
    fn test_logging_error() {
        let error = OmniXError::LoggingError("Log file not found".to_string());
        assert_eq!(format!("{}", error), "Logging error: Log file not found");
    }

    #[test]
    fn test_database_error() {
        let error = OmniXError::DatabaseError("Connection failed".to_string());
        assert_eq!(format!("{}", error), "Database error: Connection failed");
    }

    #[test]
    fn test_network_error() {
        let error = OmniXError::NetworkError("Network unreachable".to_string());
        assert_eq!(format!("{}", error), "Network error: Network unreachable");
    }

    #[test]
    fn test_authentication_error() {
        let error = OmniXError::AuthenticationError("Invalid credentials".to_string());
        assert_eq!(format!("{}", error), "Authentication error: Invalid credentials");
    }

    #[test]
    fn test_authorization_error() {
        let error = OmniXError::AuthorizationError("Access denied".to_string());
        assert_eq!(format!("{}", error), "Authorization error: Access denied");
    }

    #[test]
    fn test_validation_error() {
        let error = OmniXError::ValidationError("Input is invalid".to_string());
        assert_eq!(format!("{}", error), "Validation error: Input is invalid");
    }
}
"#;

/// What `tests/omnixerror_tests.rs` holds: the fixed stretches with the project's values set between them.
pub open spec fn omnixerror_tests_text(project_name: Seq<char>) -> Seq<char> {
    OMNIXERROR_TESTS_PART_0@
        + project_name + OMNIXERROR_TESTS_PART_1@
}

/// The text of `tests/omnixerror_tests.rs` for a project of the given name.
pub fn generate_omnixerror_tests_content(project_name: &str) -> (text: String)
    ensures
        text@ == omnixerror_tests_text(project_name@),
{
    let mut text = String::from_str(OMNIXERROR_TESTS_PART_0);
    text.append(project_name);
    text.append(OMNIXERROR_TESTS_PART_1);
    text
}

/// The opening stretch of `tests/omnixmetry_tests.rs`.
pub const OMNIXMETRY_TESTS_PART_0: &'static str = r#"// tests/omnixmetry_tests.rs ~=#######D]======A===r===c====M===o===o===n=====<Lord[TESTS]Xyn>=====S===t===u===d===i===o===s======[R|$>

use "#;

/// The middle stretch of `tests/omnixmetry_tests.rs`, piece 1.
pub const OMNIXMETRY_TESTS_PART_1: &'static str = r#"::omnixtracker::OmniXMetry;
use "#;

/// The closing stretch of `tests/omnixmetry_tests.rs`.
pub const OMNIXMETRY_TESTS_PART_2: &'static str = r#"::constants::{INITIAL_LOG_LEVEL, LOG_FILE_PATH};
use std::env;
use std::path::Path;
use tracing::Level;
use std::sync::Once;

static INIT: Once = Once::new();

fn initialize() {
    INIT.call_once(|| {
        env::remove_var("PROMETHEUS_LISTENER");
        env::remove_var("LOG_FILE_PATH");
        println!("Initialization complete.");
    });
}

#[cfg(test)]
mod tests {
    use super::*;

    #[test]
    fn test_init() {
        initialize();
        match OmniXMetry::init() {
            Ok(omnixmetry) => {
                assert_eq!(omnixmetry.get_log_level(), *INITIAL_LOG_LEVEL);
                assert!(omnixmetry.is_log_file_initialized());
            },
            Err(e) => {
                // Check if the error is due to Prometheus already being initialized
                if e.to_string().contains("metrics system was already initialized") {
                    println!("Prometheus recorder already initialized. Skipping this test.");
                } else {
                    panic!("Unexpected error: {}", e);
                }
            }
        }
    }

    #[test]
    fn test_log_level() {
        initialize();
        if let Ok(omnixmetry) = OmniXMetry::init() {
            assert_eq!(omnixmetry.get_log_level(), *INITIAL_LOG_LEVEL);
            
            omnixmetry.set_log_level(Level::DEBUG);
            assert_eq!(omnixmetry.get_log_level(), Level::DEBUG);
        } else {
            println!("Failed to initialize OmniXMetry. Skipping this test.");
        }
    }

    #[test]
    fn test_rotate_log_file() {
        initialize();
        if let Ok(omnixmetry) = OmniXMetry::init() {
            // Write something to the log file
            omnixmetry.write_log("Test log entry").unwrap();

            omnixmetry.rotate_log_file().unwrap();

            let xdocs_path = Path::new("Xdocs");
            assert!(xdocs_path.exists(), "Xdocs directory should exist");

            let rotated_files: Vec<_> = std::fs::read_dir(xdocs_path)
                .unwrap()
                .filter_map(|entry| {
                    let entry = entry.unwrap();
                    let path = entry.path();
                    if path.is_file() && path.extension().and_then(|s| s.to_str()) == Some("log") {
                        Some(path)
                    } else {
                        None
                    }
                })
                .collect();

            assert!(!rotated_files.is_empty(), "At least one rotated log file should exist in Xdocs/");
            assert!(omnixmetry.is_log_file_initialized(), "Log file should be initialized after rotation.");

            // Clean up
            std::fs::remove_dir_all(xdocs_path).unwrap();
            std::fs::remove_file(&*LOG_FILE_PATH).unwrap();
        } else {
            println!("Failed to initialize OmniXMetry. Skipping this test.");
        }
    }
}
"#;

/// What `tests/omnixmetry_tests.rs` holds: the fixed stretches with the project's values set between them.
pub open spec fn omnixmetry_tests_text(project_name: Seq<char>) -> Seq<char> {
    OMNIXMETRY_TESTS_PART_0@
        + project_name + OMNIXMETRY_TESTS_PART_1@
        + project_name + OMNIXMETRY_TESTS_PART_2@
}

/// The text of `tests/omnixmetry_tests.rs` for a project of the given name.
pub fn generate_omnixmetry_tests_content(project_name: &str) -> (text: String)
    ensures
        text@ == omnixmetry_tests_text(project_name@),
{
    let mut text = String::from_str(OMNIXMETRY_TESTS_PART_0);
    text.append(project_name);
    text.append(OMNIXMETRY_TESTS_PART_1);
    text.append(project_name);
    text.append(OMNIXMETRY_TESTS_PART_2);
    text
}

/// The opening stretch of `tests/utils_lxsl_tests.rs`.
pub const UTILS_LXSL_TESTS_PART_0: &'static str = r##"// tests/utils_lxsl_tests.rs
use crate::{
    constants::ARCMOON_SIGNATURE,
    utils::lxsl::LordXynSignatureLine,
};
use std::path::Path;

#[test]
fn test_generate_signature_line() {
    let file_path = "src/utils/lxsl.rs";
    let signature = LordXynSignatureLine::generate_signature_line(file_path);
    assert!(signature.contains("// src/utils/"));
    assert!(signature.contains(ARCMOON_SIGNATURE));
    assert!(signature.contains("<Lord[UTILS]Xyn>"));
}

#[test]
fn test_build_signature_path() {
    let path_parts = &["src", "utils", "lxsl.rs"];
    let signature_path = LordXynSignatureLine::build_signature_path(path_parts);
    assert_eq!(signature_path, "src/utils/");
}

#[test]
fn test_build_xyn_signature() {
    let path_parts = &["src", "utils", "lxsl.rs"];
    let xyn_signature = LordXynSignatureLine::build_xyn_signature(path_parts);
    assert_eq!(xyn_signature, "LXSL");
}

#[test]
fn test_get_comment_prefix() {
    assert_eq!(LordXynSignatureLine::get_comment_prefix("rs"), "//");
    assert_eq!(LordXynSignatureLine::get_comment_prefix("py"), "#");
    assert_eq!(LordXynSignatureLine::get_comment_prefix("html"), "<!--");
    assert_eq!(LordXynSignatureLine::get_comment_prefix("unknown"), "");
}

#[test]
fn test_is_invalid_xyn_signature() {
    assert!(LordXynSignatureLine::is_invalid_xyn_signature("// src/utils/lxsl.rs"));
    assert!(!LordXynSignatureLine::is_invalid_xyn_signature("// src/utils/lxsl.rs ~=#######D]======<Lord[UTILS]Xyn>====="));
}

#[test]
fn test_is_xyn_signature() {
    assert!(LordXynSignatureLine::is_xyn_signature("// src/utils/lxsl.rs ~=#######D]======<Lord[UTILS]Xyn>====="));
    assert!(!LordXynSignatureLine::is_xyn_signature("// src/utils/lxsl.rs"));
}

#[test]
fn test_should_skip_file() {
    assert!(LordXynSignatureLine::should_skip_file("Cargo.lock"));
    assert!(LordXynSignatureLine::should_skip_file("image.png"));
    assert!(!LordXynSignatureLine::should_skip_file("src/main.rs"));
}

// Note: The enforce_signature_at_line_1 function is not tested here as it involves file I/O.
// Consider adding integration tests or mocking the file system for thorough testing.
"##;

/// The text of `tests/utils_lxsl_tests.rs`, the same for every project.
pub fn generate_utils_lxsl_tests_content() -> (text: String)
    ensures
        text@ == UTILS_LXSL_TESTS_PART_0@,
{
    String::from_str(UTILS_LXSL_TESTS_PART_0)
}

} // verus!
