//! The error, metrics and signature-line sources of a new project.
use vstd::prelude::*;
use vstd::string::StringExecFns;

verus! {

/// Stretch 1 of 2 of what `src/omnixtracker/omnixerror.rs` holds in a new project.
pub const OMNIXERROR_TEXT_1: &'static str = r#"// src/omnixtracker/omnixerror.rs ~=#######D]======A===r===c====M===o===o===n=====<Lord[OMNIXTRACKER]Xyn>=====S===t===u===d===i===o===s======[R|$>

use crate::omnixtracker::omnixmetry::OmniXMetry;
use std::sync::atomic::{AtomicUsize, Ordering};
use std::time::{Duration, Instant};
use parking_lot::{Mutex, RwLock};
use tracing::{error, info, warn};
use git2::Error as GitError;
use thiserror::Error;
use std::fmt;

// Define the NTMError enum for specific error types related to computations.
#[derive(Error, Debug)]
pub enum NTMError {
    #[error("Shape mismatch: expected {expected:?}, actual {actual:?}")]
    ShapeMismatch { expected: Vec<usize>, actual: Vec<usize> },
    
    #[error("A computation error occurred.")]
    ComputationError,
    
    #[error("Invalid argument: {0}")]
    InvalidArgument(String),
    
    #[error("Memory error: {0}")]
    MemoryError(String),
}

// OmniXError enum for general error handling across the application.
#[derive(Error, Debug)]
pub enum OmniXError {
    #[error("Operation failed during {operation}: {details}")]
    OperationFailed { operation: String, details: String },
    
    #[error("Retry limit exceeded after {retries} attempts: {last_error}")]
    RetryLimitExceeded { retries: usize, last_error: String },
    
    #[error("Circuit breaker activated after {count} errors in {duration:?}")]
    CircuitBreakerActivated { count: usize, duration: Duration },
    
    #[error("Operation timed out after {duration:?}")]
    OperationTimeout { duration: Duration },
    
    #[error("File system error: {0}")]
    FileSystemError(String),
    
    #[error("Environment variable error: {0}")]
    EnvVarError(String),
    
    #[error("Project creation error: {0}")]
    ProjectCreationError(String),
    
    #[error("Metrics initialization error: {0}")]
    MetricsInitError(String),
    
    #[error("Logging error: {0}")]
    LoggingError(String),
    
    #[error("Database error: {0}")]
    DatabaseError(String),
    
    #[error("Network error: {0}")]
    NetworkError(String),
    
    #[error("Authentication error: {0}")]
    AuthenticationError(String),
    
    #[error("Authorization error: {0}")]
    AuthorizationError(String),
    
    #[error("Validation error: {0}")]
    ValidationError(String),
    
    // Integrate NTMError variants into OmniXError
    #[error("Shape mismatch: expected {expected:?}, actual {actual:?}")]
    NTMShapeMismatch { expected: Vec<usize>, actual: Vec<usize> },
    
    #[error("A computation error occurred.")]
    NTMComputationError,
    
    #[error("Invalid argument: {0}")]
    NTMInvalidArgument(String),
    
    #[error("Memory error: {0}")]
    NTMMemoryError(String),
}

// Implement logging for OmniXError
impl OmniXError {
    pub fn log(&self) {
        match self {
            OmniXError::OperationFailed { .. } | OmniXError::RetryLimitExceeded { .. } => {
                error!("{}", self);
            }
            OmniXError::CircuitBreakerActivated { .. } | OmniXError::OperationTimeout { .. } => {
                warn!("{}", self);
            }
            _ => {
                info!("{}", self);
            }
        }
    }
}

// Error handling functions
pub fn handle_build_error(error: Box<dyn std::error::Error>) -> OmniXError {
    match error.downcast::<std::io::Error>() {
        Ok(io_error) => OmniXError::FileSystemError(io_error.to_string()),
        Err(error) => OmniXError::OperationFailed {
            operation: "Build".to_string(),
            details: error.to_string(),
        },
    }
}

pub fn handle_main_error(error: Box<dyn std::error::Error>) -> OmniXError {
    match error.downcast::<std::io::Error>() {
        Ok(io_error) => OmniXError::FileSystemError(io_error.to_string()),
        Err(error) => match error.downcast::<std::env::VarError>() {
            Ok(var_error) => OmniXError::EnvVarError(var_error.to_string()),
            Err(error) => OmniXError::ProjectCreationError(error.to_string()),
        },
    }
}

pub fn handle_metrics_error(error: impl std::error::Error) -> OmniXError {
    OmniXError::MetricsInitError(error.to_string())
}

// Define configuration struct for error management
#[derive(Debug, Clone)]
pub struct OmniXErrorManagerConfig {
    pub max_retries: usize,
    pub circuit_breaker_threshold: usize,
    pub circuit_breaker_duration: Duration,
    pub base_delay: Duration,
    pub max_delay: Duration,
    pub timeout: Duration,
}

// Default implementation for OmniXErrorManagerConfig
impl Default for OmniXErrorManagerConfig {
    fn default() -> Self {
        Self {
            max_retries: 3,
            circuit_breaker_threshold: 10,
            circuit_breaker_duration: Duration::from_secs(60),
            base_delay: Duration::from_millis(100),
            max_delay: Duration::from_secs(10),
            timeout: Duration::from_secs(30),
        }
    }
}

// Implement conversions from other error types to OmniXError
impl From<GitError> for OmniXError {
    fn from(err: GitError) -> Self {
        OmniXError::OperationFailed {
            operation: "Git operation failed".to_string(),
            details: err.to_string(),
        }
    }
}

impl From<anyhow::Error> for OmniXError {
    fn from(err: anyhow::Error) -> Self {
        OmniXError::OperationFailed {
            operation: "Unknown operation".to_string(),
            details: err.to_string(),
        }
    }
}

// Circuit state management
#[derive(Debug, Clone, Copy, PartialEq, Eq)]
enum CircuitState {
    Closed,
    Open(Instant),
    HalfOpen,
}

impl fmt::Display for CircuitState {
    fn fmt(&self, f: &mut fmt::Formatter<'_>) -> fmt::Result {
        match self {
            CircuitState::Closed => write!(f, "Closed"),
            CircuitState::Open(_) => write!(f, "Open"),
            CircuitState::HalfOpen => write!(f, "Half-Open"),
        }
    }
}

// Define the OmniXErrorManager struct
pub struct OmniXErrorManager {
    error_count: AtomicUsize,
    config: RwLock<OmniXErrorManagerConfig>,
    circuit_state: Mutex<CircuitState>,
    last_error_time: Mutex<Instant>,
    half_open_trial_count: AtomicUsize,
}

// Implement methods for OmniXErrorManager
impl OmniXErrorManager {
    pub fn new(config: OmniXErrorManagerConfig) -> Self {
        Self {
            error_count: AtomicUsize::new(0),
            config: RwLock::new(config),
            circuit_state: Mutex::new(CircuitState::Closed),
            last_error_time: Mutex::new(Instant::now()),
            half_open_trial_count: AtomicUsize::new(0),
        }
    }

    // Async error handling with retry logic
    pub async fn handle_error<T, F, Fut>(
        &self,
        operation: F,
        metrics: &OmniXMetry,
    ) -> Result<T, OmniXError>
    where
        F: Fn() -> Fut,
        Fut: std::future::Future<Output = Result<T, OmniXError>>,
    {
        let config = self.config.read();

        if !self.check_circuit_state() {
            metrics.increment_counter("error_manager.circuit_opened".to_string(), 1);
            return Err(OmniXError::CircuitBreakerActivated {
                count: self.error_count.load(Ordering::Relaxed),
                duration: config.circuit_breaker_duration,
            });
        }

        for retries in 0..config.max_retries {
            let start_time = Instant::now();
            match tokio::time::timeout(config.timeout, operation()).await {
                Ok(Ok(result)) => {
                    self.error_count.store(0, Ordering::Relaxed);
                    self.close_circuit();
                    metrics.increment_counter("error_manager.successes".to_string(), 1);
                    metrics.update_gauge("error_manager.operation_latency".to_string(), start_time.elapsed().as_secs_f64());
                    info!("Operation succeeded on attempt {}", retries + 1);
                    return Ok(result);
                }
                Ok(Err(e)) => {
                    e.log();
                    self.error_count.fetch_add(1, Ordering::Relaxed);
                    *self.last_error_time.lock() = Instant::now();

                    metrics.increment_counter("error_manager.failures".to_string(), 1);
                    metrics.increment_counter(format!("error_manager.failures.{}", e), 1);

                    if self.error_count.load(Ordering::Relaxed) >= config.circuit_breaker_threshold {
                        self.open_circuit();
                        metrics.increment_counter("error_manager.circuit_tripped".to_string(), 1);
                        error!(
                            "Circuit breaker tripped after {} consecutive failures",
                            self.error_count.load(Ordering::Relaxed)
                        );
                        return Err(OmniXError::CircuitBreakerActivated {
                            count: self.error_count.load(Ordering::Relaxed),
                            duration: config.circuit_breaker_duration,
                        });
                    }

                    if retries == config.max_retries - 1 {
                        metrics.increment_counter("error_manager.max_retries_exceeded".to_string(), 1);
                        metrics.update_gauge("error_manager.operation_latency".to_string(), start_time.elapsed().as_secs_f64());
                        return Err(OmniXError::RetryLimitExceeded {
                            retries: retries + 1,
                            last_error: e.to_string(),
                        });
                    }

                    let delay = config
                        .base_delay
                        .mul_f32(2_f32.powi(retries as i32))
                        .min(config.max_delay);
                    tokio::time::sleep(delay).await;
                }
                Err(_) => {
                    metrics.increment_counter("error_manager.operation_timeout".to_string(), 1);
                    metrics.update_gauge("error_manager.operation_latency".to_string(), config.timeout.as_secs_f64());
                    return Err(OmniXError::OperationTimeout {
                        duration: config.timeout,
                    });
                }
            }
        }

        Err(OmniXError::RetryLimitExceeded {
            retries: config.max_retries,
            last_error: "Maximum retries reached".to_string(),
        })
    }

    fn check_circuit_state(&self) -> bool {
        let mut circuit_state = self.circuit_state.lock();
        match *circuit_state {
            CircuitState::Closed => true,
            CircuitState::Open(opened_at) => {
                let config = self.config.read();
                if opened_at.elapsed() >= config.circuit_breaker_duration {
                    *circuit_state = CircuitState::HalfOpen;
                    self.half_open_trial_count.store(0, Ordering::Relaxed);
                    warn!("Circuit breaker transitioning to HalfOpen state");
                    true
                } else {
                    false
                }
            }
            CircuitState::HalfOpen => {
                if self.half_open_trial_count.fetch_add(1, Ordering::Relaxed) < 1 {
                    info!("Circuit breaker is Half-Open; allowing trial operation");
                    true
                } else {
                    warn!("Circuit breaker is Half-Open; trial limit reached");
                    false
                }
            }
        }
    }

    fn open_circuit(&self) {
        let mut circuit_state = self.circuit_state.lock();
        *circuit_state = CircuitState::Open(Instant::now());
        self.half_open_trial_count.store(0, Ordering::Relaxed);
        warn!("Circuit breaker opened");
    }

    fn close_circuit(&self) {
        let mut circuit_state = self.circuit_state.lock();
        *circuit_state = CircuitState::Closed;
        self.half_open_trial_count.store(0, Ordering::Relaxed);
        info!("Circuit breaker closed");
    }

"#;

/// Stretch 2 of 2 of what `src/omnixtracker/omnixerror.rs` holds in a new project.
pub const OMNIXERROR_TEXT_2: &'static str = r#"    pub fn update_config(&self, new_config: OmniXErrorManagerConfig) {
        let mut config = self.config.write();
        *config = new_config;
        info!("OmniXErrorManager configuration updated");
    }
}
"#;

/// What `src/omnixtracker/omnixerror.rs` holds in a new project.
pub open spec fn omnixerror_text() -> Seq<char> {
    OMNIXERROR_TEXT_1@ + OMNIXERROR_TEXT_2@
}

/// The text of `src/omnixtracker/omnixerror.rs`, the same for every project.
pub fn generate_omnixerror_content() -> (text: String)
    ensures
        text@ == omnixerror_text(),
{
    let mut text = String::from_str(OMNIXERROR_TEXT_1);
    text.append(OMNIXERROR_TEXT_2);
    text
}

/// What `src/omnixtracker/omnixmetry.rs` holds in a new project.
pub const OMNIXMETRY_TEXT: &'static str = r#"// src/omnixtracker/omnixmetry.rs ~=#######D]======A===r===c====M===o===o===n=====<Lord[OMNIXTRACKER]Xyn>=====S===t===u===d===i===o===s======[R|$>

use crate::constants::{PROMETHEUS_LISTENER, PROMETHEUS_TEST_LISTENER, INITIAL_LOG_LEVEL, LOG_FILE_PATH};
use tracing_subscriber::{Layer, Registry, EnvFilter};
use metrics_exporter_prometheus::PrometheusBuilder;
use tracing::{Event, Level, Metadata, Subscriber};
use anyhow::{Context, Result as AnyhowResult};
use std::collections::{VecDeque, HashMap};
use tracing_subscriber::prelude::*;
use std::fs::{OpenOptions, File};
use std::fmt::Write as FmtWrite;
use std::io::{Write, BufWriter};
use std::path::{Path, PathBuf};
use chrono::{Local, Duration};
use once_cell::sync::OnceCell;
use std::net::TcpListener;
use plotters::prelude::*;
use parking_lot::RwLock;
use std::sync::Arc;
use regex::Regex;
use colored::*;

static PROMETHEUS_RECORDER: OnceCell<()> = OnceCell::new();

#[derive(Clone)]
pub struct OmniXMetry {
    log_file: Arc<RwLock<Option<BufWriter<File>>>>,
    log_level: Arc<RwLock<Level>>,
    metrics_data: Arc<RwLock<MetricsData>>,
}

struct MetricsData {
    counters: HashMap<String, VecDeque<(chrono::DateTime<Local>, u64)>>,
    gauges: HashMap<String, VecDeque<(chrono::DateTime<Local>, f64)>>,
    histograms: HashMap<String, VecDeque<(chrono::DateTime<Local>, f64)>>,
}

impl MetricsData {
    fn new() -> Self {
        Self {
            counters: HashMap::new(),
            gauges: HashMap::new(),
            histograms: HashMap::new(),
        }
    }

    fn add_counter(&mut self, key: String, value: u64) {
        let entry = self.counters.entry(key).or_insert_with(VecDeque::new);
        entry.push_back((Local::now(), value));
        if entry.len() > 100 {
            entry.pop_front();
        }
    }

    fn add_gauge(&mut self, key: String, value: f64) {
        let entry = self.gauges.entry(key).or_insert_with(VecDeque::new);
        entry.push_back((Local::now(), value));
        if entry.len() > 100 {
            entry.pop_front();
        }
    }

    fn add_histogram(&mut self, key: String, value: f64) {
        let entry = self.histograms.entry(key).or_insert_with(VecDeque::new);
        entry.push_back((Local::now(), value));
        if entry.len() > 100 {
            entry.pop_front();
        }
    }
}

impl OmniXMetry {
    pub fn init() -> AnyhowResult<Self> {
        PROMETHEUS_RECORDER.get_or_try_init(|| {
            let listener_result = if cfg!(test) {
                TcpListener::bind(&*PROMETHEUS_TEST_LISTENER)
                    .context("Failed to bind to test port")
            } else {
                TcpListener::bind(&*PROMETHEUS_LISTENER)
                    .context("Failed to bind to configured Prometheus listener")
            };

            let listener = listener_result?;
            println!("Prometheus listening on: {}", listener.local_addr()?);

            PrometheusBuilder::new()
                .with_http_listener(listener.local_addr()?)
                .install_recorder()
                .context("Failed to set global Prometheus recorder")?;

            Ok::<(), anyhow::Error>(())
        }).context("Failed to initialize Prometheus recorder")?;

        let log_file = OpenOptions::new()
            .create(true)
            .append(true)
            .open(&*LOG_FILE_PATH)
            .context("Failed to open log file")?;

        let buffered_file = BufWriter::new(log_file);

        Ok(Self {
            log_level: Arc::new(RwLock::new(*INITIAL_LOG_LEVEL)),
            log_file: Arc::new(RwLock::new(Some(buffered_file))),
            metrics_data: Arc::new(RwLock::new(MetricsData::new())),
        })
    }

    pub fn set_log_level(&self, level: Level) {
        let mut log_level = self.log_level.write();
        *log_level = level;
    }

    pub fn get_log_level(&self) -> Level {
        *self.log_level.read()
    }

    pub fn is_log_file_initialized(&self) -> bool {
        self.log_file.read().is_some()
    }

    pub fn increment_counter(&self, key_name: String, value: u64) {
        let counter = metrics::counter!(key_name.clone(), "value" => value.to_string());
        counter.increment(value);
        self.metrics_data.write().add_counter(key_name, value);
    }

    pub fn update_gauge(&self, key_name: String, value: f64) {
        let gauge = metrics::gauge!(key_name.clone(), "value" => value.to_string());
        gauge.set(value);
        self.metrics_data.write().add_gauge(key_name, value);
    }

    pub fn record_histogram(&self, key_name: String, value: f64) {
        let histogram = metrics::histogram!(key_name.clone(), "value" => value.to_string());
        histogram.record(value);
        self.metrics_data.write().add_histogram(key_name, value);
    }

    pub fn rotate_log_file(&self) -> AnyhowResult<()> {
        let mut log_file_lock = self.log_file.write();
        if let Some(mut file) = log_file_lock.take() {
            file.flush().context("Failed to flush log file before rotation")?;
            drop(file);

            let xdocs_path = Path::new("Xdocs");
            std::fs::create_dir_all(&xdocs_path)
                .context("Failed to create Xdocs directory")?;

            let old_log_path = Path::new(&*LOG_FILE_PATH);
            if old_log_path.exists() {
                let new_log_path = self.generate_new_log_path(xdocs_path)?;
                std::fs::rename(&old_log_path, &new_log_path)
                    .context("Failed to rename log file")?;
            } else {
                println!("Warning: Log file doesn't exist. Creating a new one.");
            }
        }

        let new_file = OpenOptions::new()
            .create(true)
            .append(true)
            .open(&*LOG_FILE_PATH)
            .context("Failed to open new log file")?;

        let buffered_file = BufWriter::new(new_file);
        *log_file_lock = Some(buffered_file);

        Ok(())
    }

    fn generate_new_log_path(&self, xdocs_path: &Path) -> AnyhowResult<PathBuf> {
        let date_time = Local::now().format("%m-%d-%Y_%H-%M");
        let base_name = format!("{}", date_time);

        let regex = Regex::new(&format!(r"^{}_(\d{{3}})\.log$", regex::escape(&base_name)))
            .context("Failed to create regex for log file naming")?;

        let mut highest_number = 0;
        for entry in std::fs::read_dir(xdocs_path)? {
            let entry = entry?;
            let file_name = entry.file_name().into_string().unwrap_or_default();
            if let Some(captures) = regex.captures(&file_name) {
                if let Some(number_match) = captures.get(1) {
                    if let Ok(number) = number_match.as_str().parse::<u32>() {
                        highest_number = highest_number.max(number);
                    }
                }
            }
        }

        let new_number = highest_number + 1;
        let new_file_name = format!("{}_{:03}.log", base_name, new_number);
        Ok(xdocs_path.join(new_file_name))
    }

    pub fn write_log(&self, log_entry: &str) -> std::io::Result<()> {
        if let Some(ref mut file) = *self.log_file.write() {
            writeln!(file, "{}", log_entry)?;
            file.flush()?;
        }
        Ok(())
    }

    pub fn generate_metrics_chart(&self, metric_type: &str, metric_name: &str) -> AnyhowResult<()> {
        let metrics_data = self.metrics_data.read();
        let data = match metric_type {
            "counter" => metrics_data.counters.get(metric_name).map(|d| d.iter().map(|(t, &v)| (*t, v as f64)).collect::<Vec<_>>()),
            "gauge" => metrics_data.gauges.get(metric_name).map(|d| d.iter().map(|(t, &v)| (*t, v)).collect::<Vec<_>>()),
            "histogram" => metrics_data.histograms.get(metric_name).map(|d| d.iter().map(|(t, &v)| (*t, v)).collect::<Vec<_>>()),
            _ => return Err(anyhow::anyhow!("Invalid metric type")),
        };

        let data = data.ok_or_else(|| anyhow::anyhow!("No data for the specified metric"))?;

        let root = BitMapBackend::new(&format!("{}_{}.png", metric_type, metric_name), (800, 600))
            .into_drawing_area();
        root.fill(&WHITE)?;

        let mut chart = ChartBuilder::on(&root)
            .caption(format!("{} over time", metric_name), ("sans-serif", 40).into_font())
            .margin(10)
            .x_label_area_size(40)
            .y_label_area_size(40)
            .build_cartesian_2d(
                data.first().unwrap().0..data.last().unwrap().0,
                0f64..data.iter().map(|(_, v)| *v).fold(f64::NEG_INFINITY, f64::max),
            )?;

        chart.configure_mesh().draw()?;

        chart
            .draw_series(LineSeries::new(
                data.iter().map(|(t, v)| (*t, *v)),
                &RED,
            ))?
            .label(metric_name)
            .legend(|(x, y)| PathElement::new(vec![(x, y), (x + 20, y)], &RED));

        chart
            .configure_series_labels()
            .background_style(&WHITE.mix(0.8))
            .border_style(&BLACK)
            .draw()?;

        root.present()?;

        Ok(())
    }
}

impl<S> Layer<S> for OmniXMetry
where
    S: Subscriber + for<'a> tracing_subscriber::registry::LookupSpan<'a>,
{
    fn on_event(&self, event: &Event<'_>, _ctx: tracing_subscriber::layer::Context<'_, S>) {
        if *event.metadata().level() <= self.get_log_level() {
            let level_str = match *event.metadata().level() {
                Level::ERROR => "ERROR".red(),
                Level::WARN => "WARN ".yellow(),
                Level::INFO => "INFO ".green(),
                Level::DEBUG => "DEBUG".blue(),
                Level::TRACE => "TRACE".magenta(),
            };

            let mut fields = String::new();
            {
                let mut visitor = FieldVisitor { output: &mut fields };
                event.record(&mut visitor);
            }

            let log_entry = format!(
                "{} [{}] {}: {}",
                Local::now().format("%B, %d %Y @ %I:%M %p"),
                level_str,
                event.metadata().target(),
                fields
            );

            println!("{}", log_entry);

            if let Err(e) = self.write_log(&log_entry) {
                eprintln!("Failed to write to log file: {}", e);
            }
        }
    }

    fn enabled(
        &self,
        metadata: &Metadata<'_>,
        _: tracing_subscriber::layer::Context<'_, S>,
    ) -> bool {
        *metadata.level() <= self.get_log_level()
    }
}

struct FieldVisitor<'a> {
    output: &'a mut String,
}

impl<'a> tracing::field::Visit for FieldVisitor<'a> {
    fn record_debug(&mut self, field: &tracing::field::Field, value: &dyn std::fmt::Debug) {
        if !self.output.is_empty() {
            self.output.push_str(", ");
        }
        let _ = write!(self.output, "{} = {:?}", field.name(), value);
    }
}

pub fn setup_global_subscriber(omnixmetry: OmniXMetry) -> AnyhowResult<()> {
    let env_filter = EnvFilter::try_from_default_env().or_else(|_| EnvFilter::try_new("info"))?;
    let subscriber = Registry::default().with(env_filter).with(omnixmetry);
    tracing::subscriber::set_global_default(subscriber).context("Failed to set global subscriber")?;
    Ok(())
}
"#;

/// The text of `src/omnixtracker/omnixmetry.rs`, the same for every project.
pub fn generate_omnixmetry_content() -> (text: String)
    ensures
        text@ == OMNIXMETRY_TEXT@,
{
    String::from_str(OMNIXMETRY_TEXT)
}

/// What `src/omnixtracker/mod.rs` holds in a new project.
pub const OMNIXTRACKER_MOD_TEXT: &'static str = r#"// src/omnixtracker/mod.rs ~=#######D]======A===r===c====M===o===o===n=====<Lord[OMNIXTRACKER]Xyn>=====S===t===u===d===i===o===s======[R|$>

pub mod omnixerror;
pub mod omnixmetry;

pub use omnixerror::{
    OmniXError, OmniXErrorManager, OmniXErrorManagerConfig, handle_build_error, handle_main_error,
};
pub use omnixmetry::{OmniXMetry, setup_global_subscriber};
"#;

/// The text of `src/omnixtracker/mod.rs`, the same for every project.
pub fn generate_omnixtracker_mod_content() -> (text: String)
    ensures
        text@ == OMNIXTRACKER_MOD_TEXT@,
{
    String::from_str(OMNIXTRACKER_MOD_TEXT)
}

/// What `src/utils/lxsl.rs` holds in a new project.
pub const LXSL_TEXT: &'static str = r##"// src/utils/lxsl.rs ~=#######D]======A===r===c====M===o===o===n=====<Lord[UTILS]Xyn>=====S===t===u===d===i===o===s======[R|$>

use crate::constants::ARCMOON_SIGNATURE;
use std::fs::OpenOptions;
use std::io::{self, BufRead, Write};
use std::path::Path;

pub struct LordXynSignatureLine;

impl LordXynSignatureLine {
    pub fn generate_signature_line(file_path: &str) -> String {
        let normalized_path = Path::new(file_path)
            .to_str()
            .unwrap_or(file_path)
            .replace('\\', "/");

        let path_parts: Vec<&str> = normalized_path.split('/').collect();

        let extension = Path::new(file_path)
            .extension()
            .and_then(|ext| ext.to_str())
            .unwrap_or("");

        let comment_prefix = Self::get_comment_prefix(extension);

        if comment_prefix.is_empty() {
            return String::new();
        }

        let signature_path = Self::build_signature_path(&path_parts);
        let xyn_signature = Self::build_xyn_signature(&path_parts);

        format!(
            "{} {} {}",
            comment_prefix,
            signature_path,
            ARCMOON_SIGNATURE.replace("{}", &xyn_signature)
        )
    }

    pub fn enforce_signature_at_line_1(file_path: &str) -> io::Result<()> {
        let path = Path::new(file_path);

        if Self::should_skip_file(file_path) {
            return Ok(());
        }

        let extension = path.extension().and_then(|ext| ext.to_str()).unwrap_or("");
        let comment_prefix = Self::get_comment_prefix(extension);

        if comment_prefix.is_empty() {
            return Ok(());
        }

        let file = OpenOptions::new().read(true).open(&path)?;
        let lines: Vec<String> = io::BufReader::new(file).lines().collect::<Result<_, _>>()?;

        let cleaned_lines: Vec<String> = lines
            .into_iter()
            .enumerate()
            .filter_map(|(idx, line)| {
                if idx < 10 && (Self::is_invalid_xyn_signature(&line) || Self::is_xyn_signature(&line)) {
                    None
                } else {
                    Some(line)
                }
            })
            .collect();

        let signature = Self::generate_signature_line(file_path);
        let mut file = OpenOptions::new().write(true).truncate(true).open(path)?;

        if !signature.is_empty() {
            writeln!(file, "{}", signature)?;
        }

        for line in cleaned_lines {
            writeln!(file, "{}", line)?;
        }

        Ok(())
    }

    pub fn build_signature_path(path_parts: &[&str]) -> String {
        if path_parts.len() > 1 {
            path_parts
                .iter()
                .take(path_parts.len() - 1)
                .map(|comp| format!("{}/", comp))
                .collect()
        } else {
            String::new()
        }
    }

    pub fn build_xyn_signature(path_parts: &[&str]) -> String {
        path_parts
            .last()
            .map(|last_part| {
                Path::new(last_part)
                    .file_stem()
                    .and_then(|stem| stem.to_str())
                    .unwrap_or("UNKNOWN")
                    .to_uppercase()
                    .replace('_', "-")
            })
            .unwrap_or_else(|| "UNKNOWN".to_string())
    }

    pub fn get_comment_prefix(extension: &str) -> &str {
        match extension {
            "rs" | "js" | "ts" | "cpp" | "c" | "java" => "//",
            "py" | "sh" | "rb" | "pl" => "#",
            "html" | "xml" => "<!--",
            "css" | "scss" => "/*",
            "sql" | "txt" => "--",
            _ => "",
        }
    }

    pub fn is_invalid_xyn_signature(line: &str) -> bool {
        let has_valid_path = line.contains("// src") || line.contains("// build") || line.contains("// tests");
        let has_signature_format = line.contains("~=#######D]") && line.contains("<Lord[") && line.contains("]Xyn>");
        has_valid_path && !has_signature_format
    }

    pub fn is_xyn_signature(line: &str) -> bool {
        let has_valid_path = line.contains("// src") || line.contains("// build") || line.contains("// tests");
        let has_signature_format = line.contains("~=#######D]") && line.contains("<Lord[") && line.contains("]Xyn>");
        has_valid_path && has_signature_format
    }

    pub fn should_skip_file(file_path: &str) -> bool {
        let skip_extensions = [
            "lock", "log", "png", "jpg", "jpeg", "gif", "pyc", "toml", "exe", "dll", "so", "bin",
        ];

        Path::new(file_path)
            .extension()
            .and_then(|ext| ext.to_str())
            .map_or(false, |ext| skip_extensions.contains(&ext))
    }
}
"##;

/// The text of `src/utils/lxsl.rs`, the same for every project.
pub fn generate_lxsl_content(_arcmoon_signature: &str) -> (text: String)
    ensures
        text@ == LXSL_TEXT@,
{
    String::from_str(LXSL_TEXT)
}

/// What `src/utils/mod.rs` holds in a new project.
pub const UTILS_MOD_TEXT: &'static str = r#"// src/utils/mod.rs ~=#######D]======A===r===c====M===o===o===n=====<Lord[UTILS]Xyn>=====S===t===u===d===i===o===s======[R|$>

pub mod lxsl;

pub use lxsl::LordXynSignatureLine;
"#;

/// The text of `src/utils/mod.rs`, the same for every project.
pub fn generate_utils_mod_content() -> (text: String)
    ensures
        text@ == UTILS_MOD_TEXT@,
{
    String::from_str(UTILS_MOD_TEXT)
}

} // verus!
