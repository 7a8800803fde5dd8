//! Top-level files of a new project: manifest, entry points, settings, licence.
use crate::scaffold::casing::{to_uppercase, uppercase};
use crate::scaffold::secret::{generate_jwt_secret, is_jwt_secret};
use crate::scaffold::{
    AUTHOR_EMAIL, AUTHOR_NAME, DOCKER_PASSWORD, DOCKER_USERNAME, GITHUB_URL, LICENSE_YEAR, LOCAL_REPO,
};
use vstd::prelude::*;
use vstd::string::StringExecFns;

verus! {

/// The opening stretch of `.env`.
pub const ENV_PART_0: &'static str = r#"# ~=#######D]======A===r===c====M===o===o===n=====<Lord[ENV]Xyn>=====S===t===u===d===i===o===s======[R|$>
JWT_SECRET="#;

/// The middle stretch of `.env`, piece 1.
pub const ENV_PART_1: &'static str = r#"
DOCKER_USERNAME="#;

/// The middle stretch of `.env`, piece 2.
pub const ENV_PART_2: &'static str = r#"
DOCKER_PASSWORD="#;

/// The middle stretch of `.env`, piece 3.
pub const ENV_PART_3: &'static str = r#"
PROMETHEUS_LISTENER=0.0.0.0:9001
INITIAL_LOG_LEVEL=INFO
GIT_REMOTE=origin
GIT_BRANCH=Dominion
GIT_COMMIT_MESSAGE="Automated update via xyngit"
XYNGIT_COMMAND=xyngit
PASSWORD_SALT_LENGTH=32
PASSWORD_HASH_ITERATIONS=100000
JWT_EXPIRATION=3600
RATE_LIMIT_WINDOW=60
RATE_LIMIT_MAX_REQUESTS=100
ENABLE_EXPERIMENTAL_FEATURES=false
USE_LEGACY_AUTH=false
REPO_PATH="#;

/// The middle stretch of `.env`, piece 4.
pub const ENV_PART_4: &'static str = r#"
GIT_REMOTE_URL="#;

/// The middle stretch of `.env`, piece 5.
pub const ENV_PART_5: &'static str = r#"/"#;

/// The closing stretch of `.env`.
pub const ENV_PART_6: &'static str = r#".git
"#;

/// What `.env` holds: the fixed stretches with the project's values set between them.
pub open spec fn env_text(project_name: Seq<char>, jwt_secret: Seq<char>) -> Seq<char> {
    ENV_PART_0@
        + jwt_secret + ENV_PART_1@
        + DOCKER_USERNAME@ + ENV_PART_2@
        + DOCKER_PASSWORD@ + ENV_PART_3@
        + LOCAL_REPO@ + ENV_PART_4@
        + GITHUB_URL@ + ENV_PART_5@
        + project_name + ENV_PART_6@
}

/// The text of `.env` for a project and a signing secret.
pub fn env_content(project_name: &str, jwt_secret: &str) -> (text: String)
    ensures
        text@ == env_text(project_name@, jwt_secret@),
{
    let mut text = String::from_str(ENV_PART_0);
    text.append(jwt_secret);
    text.append(ENV_PART_1);
    text.append(DOCKER_USERNAME);
    text.append(ENV_PART_2);
    text.append(DOCKER_PASSWORD);
    text.append(ENV_PART_3);
    text.append(LOCAL_REPO);
    text.append(ENV_PART_4);
    text.append(GITHUB_URL);
    text.append(ENV_PART_5);
    text.append(project_name);
    text.append(ENV_PART_6);
    text
}

/// The text of `.env` with a freshly drawn signing secret: thirty-two letters and digits
/// that differ from call to call.
pub fn generate_env_content(project_name: &str) -> (text: String)
    ensures
        exists|secret: Seq<char>| is_jwt_secret(secret) && text@ == env_text(project_name@, secret),
{
    let jwt_secret = generate_jwt_secret();
    env_content(project_name, jwt_secret.as_str())
}

/// The opening stretch of `.github/workflows/ci.yml`.
pub const CI_WORKFLOW_PART_0: &'static str = r#"
name: CI/CD Pipeline for "#;

/// The middle stretch of `.github/workflows/ci.yml`, piece 1.
pub const CI_WORKFLOW_PART_1: &'static str = r#"
on:
  push:
    branches: [ Dominion ]
  pull_request:
    branches: [ Dominion ]
jobs:
  build-and-push:
    runs-on: ubuntu-latest
    steps:
      - name: Checkout code
        uses: actions/checkout@v3

      - name: Set up Rust
        uses: actions-rs/toolchain@v1
        with:
          toolchain: stable
          override: true

      - name: Set up Docker Buildx
        uses: docker/setup-buildx-action@v2

      - name: Authenticate with Docker Hub
        uses: docker/login-action@v2
        with:
          username: ${{ secrets.DOCKER_USERNAME }}
          password: ${{ secrets.DOCKER_PASSWORD }}

      - name: Build and push Docker image
        uses: docker/build-push-action@v4
        with:
          context: .
          push: true
          tags: |
            xenvleid/"#;

/// The middle stretch of `.github/workflows/ci.yml`, piece 2.
pub const CI_WORKFLOW_PART_2: &'static str = r#":latest
            xenvleid/"#;

/// The closing stretch of `.github/workflows/ci.yml`.
pub const CI_WORKFLOW_PART_3: &'static str = r#":${{ github.sha }}
"#;

/// What `.github/workflows/ci.yml` holds: the fixed stretches with the project's values set between them.
pub open spec fn ci_workflow_text(project_name: Seq<char>) -> Seq<char> {
    CI_WORKFLOW_PART_0@
        + project_name + CI_WORKFLOW_PART_1@
        + project_name + CI_WORKFLOW_PART_2@
        + project_name + CI_WORKFLOW_PART_3@
}

/// The text of `.github/workflows/ci.yml` for a project of the given name.
pub fn generate_ci_workflow_content(project_name: &str) -> (text: String)
    ensures
        text@ == ci_workflow_text(project_name@),
{
    let mut text = String::from_str(CI_WORKFLOW_PART_0);
    text.append(project_name);
    text.append(CI_WORKFLOW_PART_1);
    text.append(project_name);
    text.append(CI_WORKFLOW_PART_2);
    text.append(project_name);
    text.append(CI_WORKFLOW_PART_3);
    text
}

/// The opening stretch of `Cargo.toml`.
pub const CARGO_TOML_PART_0: &'static str = r#"[package]
name = ""#;

/// The middle stretch of `Cargo.toml`, piece 1.
pub const CARGO_TOML_PART_1: &'static str = r#""
version = "0.0.7"
edition = "2021"
authors = [""#;

/// The middle stretch of `Cargo.toml`, piece 2.
pub const CARGO_TOML_PART_2: &'static str = r#" <"#;

/// The middle stretch of `Cargo.toml`, piece 3.
pub const CARGO_TOML_PART_3: &'static str = r#">"]
repository = ""#;

/// The middle stretch of `Cargo.toml`, piece 4.
pub const CARGO_TOML_PART_4: &'static str = r#"/"#;

/// The closing stretch of `Cargo.toml`.
pub const CARGO_TOML_PART_5: &'static str = r#""
license = "MIT"
readme = "README.md"
build = "build.rs"

[build-dependencies]
anyhow = "1.0.89"
walkdir = "2.5.0"

[dependencies]
anyhow = "1.0.89"
cc = "1.1.29"
chrono = "0.4"
colored = "2.0"
cudarc = "0.12.1"
dotenv = "0.15.0"
git2 = "0.15"
lazy_static = "1.4"
once_cell = "1.20.2"
metrics = "0.23.0"
metrics-exporter-prometheus = "0.15"
opencl3 = "0.9.5"
parking_lot = "0.12.3"
regex = "1.11.0"
serde = "1.0.210"
serde_json = "1.0.128"
thiserror = "1.0.64"
tokio = { version = "1.40", features = ["full"] }
tracing = "0.1.40"
tracing-subscriber = { version = "0.3.18", features = ["env-filter", "std"] }
wgpu = "22.1.0"

[profile.dev]
debug = true
lto = false
opt-level = 1

[profile.dev.package."*"]
opt-level = 3

[profile.release]
codegen-units = 1
debug = false
lto = true
opt-level = "z"

[workspace]
resolver = "2"
"#;

/// What `Cargo.toml` holds: the fixed stretches with the project's values set between them.
pub open spec fn cargo_toml_text(project_name: Seq<char>) -> Seq<char> {
    CARGO_TOML_PART_0@
        + project_name + CARGO_TOML_PART_1@
        + AUTHOR_NAME@ + CARGO_TOML_PART_2@
        + AUTHOR_EMAIL@ + CARGO_TOML_PART_3@
        + GITHUB_URL@ + CARGO_TOML_PART_4@
        + project_name + CARGO_TOML_PART_5@
}

/// The text of `Cargo.toml` for a project of the given name.
pub fn generate_cargo_toml_content(project_name: &str) -> (text: String)
    ensures
        text@ == cargo_toml_text(project_name@),
{
    let mut text = String::from_str(CARGO_TOML_PART_0);
    text.append(project_name);
    text.append(CARGO_TOML_PART_1);
    text.append(AUTHOR_NAME);
    text.append(CARGO_TOML_PART_2);
    text.append(AUTHOR_EMAIL);
    text.append(CARGO_TOML_PART_3);
    text.append(GITHUB_URL);
    text.append(CARGO_TOML_PART_4);
    text.append(project_name);
    text.append(CARGO_TOML_PART_5);
    text
}

/// The opening stretch of `config/prometheus.yml`.
pub const PROMETHEUS_YML_PART_0: &'static str = r#"# config/prometheus.yml ~=#######D]======A===r===c====M===o===o===n=====<Lord[PROMETHEUS]Xyn>=====S===t===u===d===i===o===s======[R|$>

global:
  scrape_interval: 5s
  evaluation_interval: 5s

scrape_configs:
  - job_name: '"#;

/// The closing stretch of `config/prometheus.yml`.
pub const PROMETHEUS_YML_PART_1: &'static str = r#"'
    static_configs:
      - targets: ['localhost:9001']
"#;

/// What `config/prometheus.yml` holds: the fixed stretches with the project's values set between them.
pub open spec fn prometheus_yml_text(project_name: Seq<char>) -> Seq<char> {
    PROMETHEUS_YML_PART_0@
        + project_name + PROMETHEUS_YML_PART_1@
}

/// The text of `config/prometheus.yml` for a project of the given name.
pub fn generate_prometheus_yml_content(project_name: &str) -> (text: String)
    ensures
        text@ == prometheus_yml_text(project_name@),
{
    let mut text = String::from_str(PROMETHEUS_YML_PART_0);
    text.append(project_name);
    text.append(PROMETHEUS_YML_PART_1);
    text
}

/// The opening stretch of `src/constants/mod.rs`.
pub const CONSTANTS_PART_0: &'static str = r#"// src/constants/mod.rs ~=#######D]======A===r===c====M===o===o===n=====<Lord[CONSTANTS]Xyn>=====S===t===u===d===i===o===s======[R|$>

use once_cell::sync::Lazy;
use std::time::Duration;
use std::env;
use tracing::Level;

// Custom Signature Line constant
pub const ARCMOON_SIGNATURE: &str = "~=#######D]======A===r===c====M===o===o===n=====<Lord["#;

/// The closing stretch of `src/constants/mod.rs`.
pub const CONSTANTS_PART_1: &'static str = r#"]Xyn>=====S===t===u===d===i===o===s======[R|$>";

// Git-related constants
pub const LICENSE_YEAR: &str = "2024";
pub const LICENSE_HOLDER: &str = "Lord Xyn";
pub const AUTHOR_NAME: &str = "Lord Xyn";
pub const AUTHOR_EMAIL: &str = "LordXyn@proton.me";
pub const GITHUB_URL: &str = "https://github.com/arcmoonstudios/xage";
pub const GIT_REMOTE: &str = "origin"; 
pub const GIT_BRANCH: &str = "Domain"; 
pub const GIT_COMMIT_MESSAGE: &str = "Automated update via xyngit"; 
pub const MAX_RETRIES: usize = 3; 
pub const RETRY_DELAY: Duration = Duration::from_secs(2); 

// Training parameters
pub const NTM_MEMORY_USAGE_THRESHOLD: f32 = 0.9; // Memory usage threshold for NTM (90% utilization)
pub const NTM_LEARNING_RATE: f32 = 0.0001; // Learning rate for NTM training (smaller for stability)
pub const NTM_BATCH_SIZE: usize = 16; // Batch size for NTM training (smaller for memory efficiency)
pub const NTM_EPOCHS: usize = 1000; // Number of epochs for NTM training (increased for better convergence)
pub const NTM_CLIP_VALUE: f32 = 5.0; // Gradient clipping value for NTM (reduced to prevent exploding gradients)

// NTM architecture parameters
pub const MAX_MEMORY_SIZE: usize = 4096; // Maximum memory size for NTM (increased for larger capacity)
pub const MAX_KEY_SIZE: usize = 128; // Maximum key size for NTM (increased for more complex addressing)
pub const MEMORY_VECTOR_SIZE: usize = 64; // Size of memory vector for NTM (balanced for capacity and efficiency)
pub const DEFAULT_MEMORY_SIZE: usize = 2048; // Default memory size for NTM (half of max for flexibility)
pub const DEFAULT_MEMORY_VECTOR_SIZE: usize = 64; // Default memory vector size for NTM (same as MEMORY_VECTOR_SIZE)
pub const DEFAULT_CONTROLLER_SIZE: usize = 256; // Default controller size for NTM (increased for more processing power)

// NTM operational parameters
pub const NTM_INPUT_SIZE: usize = 512; // Size of input vector (increased for more complex inputs)
pub const NTM_OUTPUT_SIZE: usize = 512; // Size of output vector (matched with input size)
pub const NTM_MEMORY_SIZE: usize = 2048; // Number of memory locations (same as DEFAULT_MEMORY_SIZE)
pub const NTM_MEMORY_VECTOR_SIZE: usize = 64; // Size of each memory vector (same as DEFAULT_MEMORY_VECTOR_SIZE)
pub const NTM_CONTROLLER_SIZE: usize = 256; // Size of controller hidden state (same as DEFAULT_CONTROLLER_SIZE)
pub const CONTEXT_WINDOW_SIZE: usize = 10000; // Number of recent items to keep in context (increased significantly)

// OmniXelerator Task-related constants
pub const TASK_CHANNEL_BUFFER_SIZE: usize = 1000;
pub const PROGRESS_CHANNEL_BUFFER_SIZE: usize = 100;
pub const INITIAL_TASK_CONCURRENCY: usize = 4;
pub const DEFAULT_TASK_QUEUE_SIZE: usize = 1000;
pub const DEFAULT_MAX_CONCURRENT_TASKS: usize = 10;
pub const DEFAULT_UPDATE_INTERVAL_MS: u64 = 1000;
pub const METRICS_UPDATE_INTERVAL_MS: u64 = 1000;
pub const CHECKPOINT_INTERVAL: usize = 100;

// OmniXelerator - Resource utilization thresholds
pub const LOW_UTILIZATION_THRESHOLD: f32 = 0.3;
pub const HIGH_UTILIZATION_THRESHOLD: f32 = 0.8;
pub const ACCELERATION_THRESHOLD: f32 = 0.5;

// Timeout constants
pub const SHUTDOWN_TIMEOUT_SECONDS: u64 = 30;
pub const THREAD_SHUTDOWN_TIMEOUT: Duration = Duration::from_secs(5);
pub const KERNEL_SHUTDOWN_TIMEOUT: Duration = Duration::from_secs(5);

// OmniXelerator - Scaling threshold constants
pub const CPU_SCALE_THRESHOLD_ACCELERATE: f32 = 0.8;
pub const GPU_SCALE_THRESHOLD_ACCELERATE: f32 = 0.8;
pub const MEMORY_SCALE_THRESHOLD_ACCELERATE: f32 = 0.8;
pub const CPU_SCALE_THRESHOLD_DECELERATE: f32 = 0.2;
pub const GPU_SCALE_THRESHOLD_DECELERATE: f32 = 0.2;
pub const MEMORY_SCALE_THRESHOLD_DECELERATE: f32 = 0.2;

// OmniXelerator - Worker and GPU kernel constants
pub const MIN_WORKER_THREADS: usize = 1;
pub const MAX_WORKER_THREADS: usize = 32;
pub const MIN_GPU_KERNELS: usize = 1;
pub const MAX_GPU_KERNELS: usize = 8;

// Password and security-related constants
pub const PASSWORD_SALT_LENGTH: usize = 32;
pub const PASSWORD_HASH_ITERATIONS: u32 = 100_000;
pub const JWT_EXPIRATION: i64 = 3600;
pub const RATE_LIMIT_WINDOW: u64 = 60;
pub const RATE_LIMIT_MAX_REQUESTS: u32 = 100;
pub const ENABLE_EXPERIMENTAL_FEATURES: bool = false;
pub const USE_LEGACY_AUTH: bool = false;

// OmniXMetry - Prometheus and log-related constants
pub static PROMETHEUS_LISTENER: Lazy<String> = Lazy::new(|| env::var("PROMETHEUS_LISTENER").unwrap_or_else(|_| "0.0.0.0:9001".to_string()));
pub static PROMETHEUS_TEST_LISTENER: Lazy<String> = Lazy::new(|| env::var("PROMETHEUS_TEST_LISTENER").unwrap_or_else(|_| "127.0.0.1:0".to_string()));
pub static INITIAL_LOG_LEVEL: Lazy<Level> = Lazy::new(|| env::var("INITIAL_LOG_LEVEL").map(|v| v.parse().unwrap_or(Level::INFO)).unwrap_or(Level::INFO));
pub static LOG_FILE_PATH: Lazy<String> = Lazy::new(|| env::var("LOG_FILE_PATH").unwrap_or_else(|_| "xynpro.log".to_string()));

// OmniXError - Circuit breaker-related constants
pub static CIRCUIT_BREAKER_THRESHOLD: Lazy<usize> = Lazy::new(|| env::var("CIRCUIT_BREAKER_THRESHOLD").ok().and_then(|v| v.parse().ok()).unwrap_or(10));
pub static CIRCUIT_BREAKER_DURATION: Lazy<Duration> = Lazy::new(|| Duration::from_secs(env::var("CIRCUIT_BREAKER_DURATION").ok().and_then(|v| v.parse().ok()).unwrap_or(60)));
pub static BASE_DELAY: Lazy<Duration> = Lazy::new(|| Duration::from_millis(env::var("BASE_DELAY").ok().and_then(|v| v.parse().ok()).unwrap_or(100)));
pub static MAX_DELAY: Lazy<Duration> = Lazy::new(|| Duration::from_secs(env::var("MAX_DELAY").ok().and_then(|v| v.parse().ok()).unwrap_or(10)));
pub static DEFAULT_TIMEOUT: Lazy<Duration> = Lazy::new(|| Duration::from_secs(env::var("DEFAULT_TIMEOUT").ok().and_then(|v| v.parse().ok()).unwrap_or(30)));

// APROAR - NTM constants

// Training parameters
pub const NTM_MEMORY_USAGE_THRESHOLD: f32 = 0.9; // Memory usage threshold for NTM (90% utilization)
pub const NTM_LEARNING_RATE: f32 = 0.0001; // Learning rate for NTM training (smaller for stability)
pub const NTM_BATCH_SIZE: usize = 16; // Batch size for NTM training (smaller for memory efficiency)
pub const NTM_EPOCHS: usize = 1000; // Number of epochs for NTM training (increased for better convergence)
pub const NTM_CLIP_VALUE: f32 = 5.0; // Gradient clipping value for NTM (reduced to prevent exploding gradients)

// NTM architecture parameters
pub const MAX_MEMORY_SIZE: usize = 4096; // Maximum memory size for NTM (increased for larger capacity)
pub const MAX_KEY_SIZE: usize = 128; // Maximum key size for NTM (increased for more complex addressing)
pub const MEMORY_VECTOR_SIZE: usize = 64; // Size of memory vector for NTM (balanced for capacity and efficiency)
pub const DEFAULT_MEMORY_SIZE: usize = 2048; // Default memory size for NTM (half of max for flexibility)
pub const DEFAULT_MEMORY_VECTOR_SIZE: usize = 64; // Default memory vector size for NTM (same as MEMORY_VECTOR_SIZE)
pub const DEFAULT_CONTROLLER_SIZE: usize = 256; // Default controller size for NTM (increased for more processing power)

// NTM operational parameters
pub const NTM_INPUT_SIZE: usize = 512; // Size of input vector (increased for more complex inputs)
pub const NTM_OUTPUT_SIZE: usize = 512; // Size of output vector (matched with input size)
pub const NTM_MEMORY_SIZE: usize = 2048; // Number of memory locations (same as DEFAULT_MEMORY_SIZE)
pub const NTM_MEMORY_VECTOR_SIZE: usize = 64; // Size of each memory vector (same as DEFAULT_MEMORY_VECTOR_SIZE)
pub const NTM_CONTROLLER_SIZE: usize = 256; // Size of controller hidden state (same as DEFAULT_CONTROLLER_SIZE)
pub const CONTEXT_WINDOW_SIZE: usize = 10000; // Number of recent items to keep in context (increased significantly)
"#;

/// What `src/constants/mod.rs` holds: the fixed stretches with the project's values set between them.
pub open spec fn constants_text(project_name: Seq<char>) -> Seq<char> {
    CONSTANTS_PART_0@
        + project_name + CONSTANTS_PART_1@
}

/// The text of `src/constants/mod.rs` for a project of the given name.
pub fn generate_constants_content(project_name: &str) -> (text: String)
    ensures
        text@ == constants_text(project_name@),
{
    let mut text = String::from_str(CONSTANTS_PART_0);
    text.append(project_name);
    text.append(CONSTANTS_PART_1);
    text
}

/// What `src/main.rs` holds in a new project.
pub const MAIN_RS_TEXT: &'static str = r#"// src/main.rs ~=#######D]======A===r===c====M===o===o===n=====<Lord[MAIN]Xyn>=====S===t===u===d===i===o===s======[R|$>

use crate::omnixtracker::{OmniXMetry, OmniXError, OmniXErrorManager, OmniXErrorManagerConfig, InitError, handle_init_error, setup_global_subscriber};
use crate::constants::{CIRCUIT_BREAKER_THRESHOLD, CIRCUIT_BREAKER_DURATION, BASE_DELAY, MAX_DELAY, DEFAULT_TIMEOUT};
use anyhow::Result;
use dotenv::dotenv;
use std::env::args; 
use tracing::info;
use std::env; 

#[tokio::main]
async fn main() -> Result<()> {
    dotenv().ok();
    info!("Welcome to Lord Xyn's Domain! Initializing systems...");

    // Check if placeholders in .env are replaced
    if env::var("GPG_PASSPHRASE").unwrap_or_default() == "your_gpg_passphrase_placeholder" {
        return Err(anyhow::anyhow!("Please replace the GPG_PASSPHRASE placeholder in the .env file with your actual GPG passphrase."));
    }
    if env::var("GIT_REMOTE_URL").unwrap_or_default() == "https://github.com/your/repo.git" {
        return Err(anyhow::anyhow!("Please replace the GIT_REMOTE_URL placeholder in the .env file with the actual URL of your GitHub repository."));
    }
    if env::var("JWT_SECRET").unwrap_or_default() == "your_JWT_passphrase_placeholder" {
        return Err(anyhow::anyhow!("Please replace the JWT_SECRET placeholder in the .env file with your actual JWT secret."));
    }

    // Initialize OmniXMetry for logging and metrics
    let omnixmetry = OmniXMetry::init()?;
    setup_global_subscriber(omnixmetry.clone())?;
    info!("OmniXMetry initialized successfully.");

    // Initialize OmniXErrorManager for error handling
    let error_manager_config = OmniXErrorManagerConfig {
        max_retries: env::var("MAX_RETRIES").unwrap_or_else(|_| "3".to_string()).parse().unwrap_or(3),
        circuit_breaker_threshold: *CIRCUIT_BREAKER_THRESHOLD,
        circuit_breaker_duration: *CIRCUIT_BREAKER_DURATION,
        base_delay: *BASE_DELAY,
        max_delay: *MAX_DELAY,
        timeout: *DEFAULT_TIMEOUT,
    };
    let omnix_error_manager = OmniXErrorManager::new(error_manager_config.clone());
    info!("OmniXErrorManager initialized successfully.");

    // Use the omnix_error_manager to ensure it's not unused
    let _ = &omnix_error_manager;

    // Process command-line arguments
    let args: Vec<String> = args().collect(); // Collect args into a vector

    // Check for the minimum number of arguments
    if args.len() < 2 {
        return Err(anyhow::anyhow!("Usage: {} --version", args[0]));
    }

    // Process command-line arguments
    match args[1].as_str() {
        "--version" => {
            println!("xynpro version 0.1.0");
            return Ok(());
        }
        _ => {
            // Future commands can be added here
            info!("No valid command provided. Exiting.");
        }
    }

    Ok(())
}
"#;

/// The text of `src/main.rs`, the same for every project.
pub fn generate_main_rs_content() -> (text: String)
    ensures
        text@ == MAIN_RS_TEXT@,
{
    String::from_str(MAIN_RS_TEXT)
}

/// What `build.rs` holds in a new project.
pub const BUILD_RS_TEXT: &'static str = r##"// build.rs ~=#######D]======A===r===c====M===o===o===n=====<Lord[BUILD]Xyn>=====S===t===u===d===i===o===s======[R|$>

use std::path::{Path, Component};
use std::fs::{self, File, OpenOptions};
use std::io::{Read, Write};
use std::process::Command;
use walkdir::WalkDir;
use anyhow::Result;
use std::env;

fn main() -> Result<()> {
    println!("cargo:rerun-if-env-changed=CONFIG_PATH");
    println!("cargo:rerun-if-changed=omnixelerator/cuda_kernels.cu");
    println!("cargo:rerun-if-changed=omnixelerator/opencl_kernels.cl");
    println!("cargo:rerun-if-changed=omnixelerator/wgpu_shaders.wgsl");

    let config_path = env::var("CONFIG_PATH").unwrap_or_else(|_| "config/default.toml".to_string());
    let out_dir = env::var("OUT_DIR").expect("OUT_DIR not set");
    let cuda_dir = env::var("CUDA_PATH").unwrap_or_else(|_| "/usr/local/cuda".to_string());

    let dest_path = Path::new(&out_dir).join("config.rs");
    let mut f = File::create(&dest_path).expect("Could not create config.rs");
    writeln!(f, "pub const CONFIG_PATH: &str = \"{}\";", config_path)
        .expect("Could not write to config.rs");

    // Compile CUDA kernels to PTX
    let status = Command::new(format!("{}/bin/nvcc", cuda_dir))
        .args(&[
            "--ptx",
            "omnixelerator/cuda_kernels.cu",
            "-o",
            &format!("{}/cuda_kernels.ptx", out_dir),
        ])
        .status()
        .expect("Failed to compile CUDA kernels");

    if !status.success() {
        panic!("CUDA kernel compilation failed");
    }

    // Read compiled PTX
    let cuda_ptx = fs::read_to_string(format!("{}/cuda_kernels.ptx", out_dir))
        .expect("Failed to read compiled PTX");

    // Read OpenCL kernels
    let opencl_kernels = fs::read_to_string("omnixelerator/opencl_kernels.cl")
        .expect("Failed to read OpenCL kernels");

    // Read WGPU shaders
    let wgpu_shaders = fs::read_to_string("omnixelerator/wgpu_shaders.wgsl")
        .expect("Failed to read WGPU shaders");

    // Write kernel strings to a file that will be included in your Rust code
    fs::write(
        Path::new(&out_dir).join("kernel_strings.rs"),
        format!(
            r#"
            pub const CUDA_KERNELS: &str = r#"{}"#;
            pub const OPENCL_KERNELS: &str = r#"{}"#;
            pub const WGPU_SHADERS: &str = r#"{}"#;
            "#,
            cuda_ptx, opencl_kernels, wgpu_shaders
        ),
    )
    .expect("Failed to write kernel strings");

    add_custom_headers(&env::current_dir()?)?;

    Ok(())
}

fn add_custom_headers(project_path: &Path) -> Result<()> {
    for entry in WalkDir::new(project_path)
        .into_iter()
        .filter_entry(|e| !e.file_name().to_str().map(|s| s.starts_with('.')).unwrap_or(false))
    {
        let entry = entry?;
        let path = entry.path();
        
        if path.is_file() {
            let extension = path.extension().and_then(|s| s.to_str()).unwrap_or("");
            if let Some(header) = generate_custom_header(project_path, path, extension) {
                add_header_to_file(path, &header)?;
            }
        }
    }
    Ok(())
}

fn generate_custom_header(project_root: &Path, path: &Path, extension: &str) -> Option<String> {
    if extension == "toml" {
        return None;
    }

    let relative_path = path.strip_prefix(project_root).unwrap_or(path);
    let components: Vec<_> = relative_path.components().collect();

    let module_name = if components.is_empty() {
        "UNKNOWN".to_string()
    } else if components.len() == 1 {
        let file_name = components[0].as_os_str().to_str().unwrap_or("UNKNOWN");
        if file_name == "build.rs" {
            "BUILD".to_string()
        } else {
            file_name.split('.').next().unwrap_or("UNKNOWN").to_uppercase()
        }
    } else if components.len() == 2 && components[0].as_os_str() == "src" {
        components[1].as_os_str().to_str().unwrap_or("UNKNOWN").split('.').next().unwrap_or("UNKNOWN").to_uppercase()
    } else {
        components.iter().rev().nth(1)
            .and_then(|c| match c {
                Component::Normal(name) => name.to_str(),
                _ => None,
            })
            .unwrap_or("UNKNOWN")
            .to_uppercase()
    };

    let module_name = module_name.replace('_', "-");

    let comment_syntax = match extension {
        "rs" | "js" | "ts" | "jsx" | "tsx" | "css" | "scss" | "cl" | "cu" | "wgsl" => "//",
        "py" | "sh" | "bash" | "md" => "#",
        "html" | "xml" => "<!--",
        "sql" | "txt" => "--",
        _ => return None,
    };

    let display_path = relative_path.display().to_string();

    Some(format!(
        "{} {} ~=#######D]======A===r===c====M===o===o===n=====<Lord[{}]Xyn>=====S===t===u===d===i===o===s======[R|$>\n",
        comment_syntax,
        display_path,
        module_name
    ))
}

fn add_header_to_file(path: &Path, new_header: &str) -> Result<()> {
    let mut content = String::new();
    {
        let mut file = File::open(path)?;
        file.read_to_string(&mut content)?;
    }

    let lines: Vec<&str> = content.lines().collect();
    let mut new_lines = Vec::new();
    let mut header_added = false;

    if !lines.is_empty() {
        if is_header(lines[0]) {
            new_lines.push(lines[0]);
            header_added = true;
        } else {
            new_lines.push(new_header.trim_end());
            header_added = true;
        }
    }

    for (i, &line) in lines.iter().enumerate() {
        if !is_header(line) || i >= 10 {
            new_lines.push(line);
        }
    }

    if !header_added {
        new_lines.insert(0, new_header.trim_end());
    }

    let new_content = new_lines.join("\n");
    let mut file = OpenOptions::new()
        .write(true)
        .truncate(true)
        .open(path)?;
    file.write_all(new_content.as_bytes())?;

    Ok(())
}

fn is_header(line: &str) -> bool {
    (line.contains("//src") || line.contains("// src") || line.contains("// build") || line.contains("# README") || line.contains("// tests")) || line.contains("-- Xtls")) &&
    line.contains("~=#######D]======A===r===c====M===o===o===n=====<Lord[") &&
    line.contains("]Xyn>=====S===t===u===d===i===o===s======[R|$>")
}
"##;

/// The text of `build.rs`, the same for every project.
pub fn generate_build_rs_content() -> (text: String)
    ensures
        text@ == BUILD_RS_TEXT@,
{
    String::from_str(BUILD_RS_TEXT)
}

/// What `src/lib.rs` holds in a new project.
pub const LIB_RS_TEXT: &'static str = r#"// src/lib.rs ~=#######D]======A===r===c====M===o===o===n=====<Lord[LIB]Xyn>=====S===t===u===d===i===o===s======[R|$>

// Core modules
pub mod omnixtracker;
pub mod constants;
pub mod utils;

// Re-exports for convenient access
pub use crate::omnixtracker::{
    OmniXMetry,
    OmniXErrorManager,
    OmniXErrorManagerConfig,
    setup_global_subscriber,
    OmniXError,
};
pub use crate::constants::*;
pub use crate::utils::LordXynSignatureLine;

// Note: `update_git` is not re-exported here as it's not defined in the current utils module
"#;

/// The text of `src/lib.rs`, the same for every project.
pub fn generate_lib_rs_content() -> (text: String)
    ensures
        text@ == LIB_RS_TEXT@,
{
    String::from_str(LIB_RS_TEXT)
}

/// The opening stretch of `README.md`.
pub const README_PART_0: &'static str = r#"<p align="center">
  |=A===r===c====M===o===o===n====(Lord[README]Xyn)====S===t===u===d===i===o===s=|
</p>

<p align="center">
  <img src="https://tinypic.host/images/2024/09/30/LordXyn.jpeg" alt="ArcMoon Studios Logo" width="503"/>
</p>

# 🚀 "#;

/// The middle stretch of `README.md`, piece 1.
pub const README_PART_1: &'static str = r#" 🦀

    "#;

/// The middle stretch of `README.md`, piece 2.
pub const README_PART_2: &'static str = r#" is a Rust project created by XynPro.

## ✨ Features

- 📁 Creates a standardized Rust project structure
- 🎨 Adds custom headers to Rust files (.rs)
- 📜 Generates a LICENSE file with MIT License
- 📚 Creates a README.md with project information and acknowledgements
- 🐙 Initializes a Git repository
- 📦 Sets up a Cargo.toml with predefined dependencies

## 🛠️ Usage

To unleash the power of this project, run the following command in your terminal:

XynPro Instructions:

Update your src/main.rs file with this new code.
Rebuild your project:
```
cargo build --release
```
Copy the new binary to your ~/.cargo/bin directory:
```
cp ./target/release/xynpro ~/.cargo/bin/xynpro
```
Make sure the binary is executable:
```
chmod +x ~/.cargo/bin/xynpro
```
Test the new functionality:
a. Check the version:
```
xynpro --version
```
This should output: "xynpro version 0.0.7"
b. Create a new project:
```
xynpro my_new_project
```
This should create a new project structure in a directory called "my_new_project"
If you encounter any issues, check the error messages and ensure all necessary dependencies are installed.
If everything works as expected, you can now use this updated version of xynpro to create projects and check its version.

Remember, if you need to make any further changes, you'll need to repeat steps 2-4 to rebuild and update the executable.


## 🗂️ Project Structure
Behold, the glorious structure of your project:


```
"#;

/// The closing stretch of `README.md`.
pub const README_PART_3: &'static str = r#"/
├── src/
│ ├── constants/
│ │ └── mod.rs
│ ├── omnixtracker/
│ │ ├── omnixerror.rs
│ │ ├── omnixmetry.rs
│ │ └── mod.rs
│ ├── utils/
│ │ ├── lxsl.rs
│ │ └── mod.rs
│ ├── lib.rs
│ └── main.rs
├── tests/
├── Xdocs/
├── Xtls/
├── .gitignore
├── Cargo.toml
├── LICENSE
└── README.md
```


📜 License: This project is licensed under the MIT License. See the LICENSE file for all the legal jazz.

🧙‍♂️ Author: Lord Xyn (LordXyn@proton.me)

💻 Github: https://github.com/arcmoonstudios

🙏 Acknowledgements

- 💼 **Insurance Sales** - for motivating me to find a new trade.
- 🧠 **Liner AI** - for having the best AI resource on research papers and documents.
- 🤖 **ChatGPT** - for generating enough terrible code that it inspired me to learn programming.
- 👪 **My Parents** - for never giving up on me as a person, regardless of my struggle with commitment.
- 👶 **My Children** - for giving me the motivation to exist and persevere.
- ❤️ **Valina** - for her love and support, and dealing with my crazy self.
"#;

/// What `README.md` holds: the fixed stretches with the project's values set between them.
pub open spec fn readme_text(project_name: Seq<char>, heading: Seq<char>) -> Seq<char> {
    README_PART_0@
        + heading + README_PART_1@
        + project_name + README_PART_2@
        + project_name + README_PART_3@
}

/// The text of `README.md` for a project and the heading that names it.
pub fn readme_content(project_name: &str, heading: &str) -> (text: String)
    ensures
        text@ == readme_text(project_name@, heading@),
{
    let mut text = String::from_str(README_PART_0);
    text.append(heading);
    text.append(README_PART_1);
    text.append(project_name);
    text.append(README_PART_2);
    text.append(project_name);
    text.append(README_PART_3);
    text
}

/// The text of `README.md`: the heading is the project's name in upper case.
pub fn generate_readme_content(project_name: &str) -> (text: String)
    ensures
        text@ == readme_text(project_name@, uppercase(project_name@)),
{
    let heading = to_uppercase(project_name);
    readme_content(project_name, heading.as_str())
}

/// The opening stretch of `LICENSE`.
pub const LICENSE_PART_0: &'static str = r#"MIT License

Copyright (c) "#;

/// The middle stretch of `LICENSE`, piece 1.
pub const LICENSE_PART_1: &'static str = r#" "#;

/// The closing stretch of `LICENSE`.
pub const LICENSE_PART_2: &'static str = r#"

Permission is hereby granted, free of charge, to any person obtaining a copy
of this software and associated documentation files (the "Software"), to deal
in the Software without restriction, including without limitation the rights
to use, copy, modify, merge, publish, distribute, sublicense, and/or sell
copies of the Software, and to permit persons to whom the Software is
furnished to do so, subject to the following conditions:

The above copyright notice and this permission notice shall be included in all
copies or substantial portions of the Software.

THE SOFTWARE IS PROVIDED "AS IS", WITHOUT WARRANTY OF ANY KIND, EXPRESS OR
IMPLIED, INCLUDING BUT NOT LIMITED TO THE WARRANTIES OF MERCHANTABILITY,
FITNESS FOR A PARTICULAR PURPOSE AND NONINFRINGEMENT. IN NO EVENT SHALL THE
AUTHORS OR COPYRIGHT HOLDERS BE LIABLE FOR ANY CLAIM, DAMAGES OR OTHER
LIABILITY, WHETHER IN AN ACTION OF CONTRACT, TORT OR OTHERWISE, ARISING FROM,
OUT OF OR IN CONNECTION WITH THE SOFTWARE OR THE USE OR OTHER DEALINGS IN THE
SOFTWARE."#;

/// What `LICENSE` holds: the fixed stretches with the project's values set between them.
pub open spec fn license_text() -> Seq<char> {
    LICENSE_PART_0@
        + LICENSE_YEAR@ + LICENSE_PART_1@
        + AUTHOR_NAME@ + LICENSE_PART_2@
}

/// The text of `LICENSE`, the same for every project.
pub fn generate_license_content() -> (text: String)
    ensures
        text@ == license_text(),
{
    let mut text = String::from_str(LICENSE_PART_0);
    text.append(LICENSE_YEAR);
    text.append(LICENSE_PART_1);
    text.append(AUTHOR_NAME);
    text.append(LICENSE_PART_2);
    text
}

/// What `.gitignore` holds in a new project.
pub const GITIGNORE_TEXT: &'static str = r#"# |=A==r==c===M==o==o==n=<Lord[GITIGNORE]Xyn>=S==t==u==d==i==o==s=|

# Environment Variables 
.env

# Generated by Cargo
/target/

# Remove Cargo.lock from gitignore if creating an executable, leave it for libraries
# More information: https://doc.rust-lang.org/cargo/guide/cargo-toml-vs-cargo-lock.html
Cargo.lock

# Backup files generated by rustfmt
**/*.rs.bk

# MSVC Windows builds of rustc generate these, which store debugging information
*.pdb

# Editor directories and files
.idea/
.vscode/
*.swp
*.swo

# Operating System files
.DS_Store
.DS_Store?
._*
.Spotlight-V100
.Trashes
ehthumbs.db
Thumbs.db
"#;

/// The text of `.gitignore`, the same for every project.
pub fn generate_gitignore_content() -> (text: String)
    ensures
        text@ == GITIGNORE_TEXT@,
{
    String::from_str(GITIGNORE_TEXT)
}

} // verus!
