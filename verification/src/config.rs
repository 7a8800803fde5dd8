//! The policy that an executor applies to each call.
use crate::time::Span;
use vstd::prelude::*;

verus! {

/// Retry, breaker and deadline settings. A call reads them once, when it starts.
#[derive(Clone, Copy, Debug, PartialEq, Eq, Structural)]
pub struct ExecutorConfig {
    /// Attempts that one call may make.
    pub max_retries: usize,
    /// Failures in a row that open the breaker.
    pub circuit_breaker_threshold: usize,
    /// How long an open breaker rejects calls before it lets a trial through.
    pub circuit_breaker_duration: Span,
    /// Delay before the second attempt; it doubles with each further attempt.
    pub base_delay: Span,
    /// Longest delay between two attempts.
    pub max_delay: Span,
    /// Deadline of a single attempt.
    pub timeout: Span,
}

/// The settings of an executor that was given none: 3 attempts, a breaker that opens after
/// 10 failures for 60 s, delays from 100 ms up to 10 s, and a deadline of 30 s.
pub open spec fn default_config() -> ExecutorConfig {
    ExecutorConfig {
        max_retries: 3,
        circuit_breaker_threshold: 10,
        circuit_breaker_duration: Span { nanos: 60_000_000_000 },
        base_delay: Span { nanos: 100_000_000 },
        max_delay: Span { nanos: 10_000_000_000 },
        timeout: Span { nanos: 30_000_000_000 },
    }
}

impl ExecutorConfig {
    /// Whether the settings make sense: the breaker's threshold is at least one failure.
    pub open spec fn valid(self) -> bool {
        self.circuit_breaker_threshold > 0
    }

    /// Whether the settings make sense.
    pub fn is_valid(&self) -> (yes: bool)
        ensures
            yes == self.valid(),
    {
        self.circuit_breaker_threshold > 0
    }

    /// These settings with another number of attempts.
    pub fn with_max_retries(self, max_retries: usize) -> (config: ExecutorConfig)
        ensures
            config == (ExecutorConfig { max_retries, ..self }),
    {
        ExecutorConfig { max_retries, ..self }
    }

    /// These settings with another breaker threshold.
    pub fn with_circuit_breaker_threshold(self, circuit_breaker_threshold: usize) -> (config:
        ExecutorConfig)
        ensures
            config == (ExecutorConfig { circuit_breaker_threshold, ..self }),
    {
        ExecutorConfig { circuit_breaker_threshold, ..self }
    }

    /// These settings with another breaker duration.
    pub fn with_circuit_breaker_duration(self, circuit_breaker_duration: Span) -> (config:
        ExecutorConfig)
        ensures
            config == (ExecutorConfig { circuit_breaker_duration, ..self }),
    {
        ExecutorConfig { circuit_breaker_duration, ..self }
    }

    /// These settings with another first delay.
    pub fn with_base_delay(self, base_delay: Span) -> (config: ExecutorConfig)
        ensures
            config == (ExecutorConfig { base_delay, ..self }),
    {
        ExecutorConfig { base_delay, ..self }
    }

    /// These settings with another longest delay.
    pub fn with_max_delay(self, max_delay: Span) -> (config: ExecutorConfig)
        ensures
            config == (ExecutorConfig { max_delay, ..self }),
    {
        ExecutorConfig { max_delay, ..self }
    }

    /// These settings with another deadline.
    pub fn with_timeout(self, timeout: Span) -> (config: ExecutorConfig)
        ensures
            config == (ExecutorConfig { timeout, ..self }),
    {
        ExecutorConfig { timeout, ..self }
    }
}

impl Default for ExecutorConfig {
    fn default() -> (config: ExecutorConfig)
        ensures
            config == default_config(),
    {
        ExecutorConfig {
            max_retries: 3,
            circuit_breaker_threshold: 10,
            circuit_breaker_duration: Span { nanos: 60_000_000_000 },
            base_delay: Span { nanos: 100_000_000 },
            max_delay: Span { nanos: 10_000_000_000 },
            timeout: Span { nanos: 30_000_000_000 },
        }
    }
}

} // verus!
