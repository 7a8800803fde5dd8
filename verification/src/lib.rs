//! Sets up new projects, and holds the resilience policy that those projects run under.
//!
//! Two parts:
//!
//! - [`scaffold`], [`cli`] and [`omnixerror`]: the text of every file of a new project, the
//!   steps that put the files on disk and publish the repository, and what can go wrong on
//!   the way.
//! - [`error_kind`], [`config`], [`backoff`], [`breaker`], [`executor`], [`run`], [`metrics`]
//!   and [`laws`]: a closed set of failure kinds, and an executor that retries a failing
//!   operation with doubling delays behind a circuit breaker.
//!
//! But for drawing a random secret, nothing here touches the machine: no disk, no clock,
//! no process. Callers do that and pass in what they found: the time as a
//! [`time::Moment`], an attempt's outcome, a command's outcome.
pub mod backoff;
pub mod breaker;
pub mod cli;
pub mod config;
pub mod decimal;
pub mod error_kind;
pub mod executor;
pub mod laws;
pub mod metrics;
pub mod omnixerror;
pub mod run;
pub mod scaffold;
pub mod time;
