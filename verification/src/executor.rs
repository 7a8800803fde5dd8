//! The executor: the state behind [`ExecutorModel`], and the steps of a call.
//!
//! The executor does not run the operation, wait or read a clock. Its caller does, and
//! tells the executor how each attempt ended:
//!
//! 1. [`ResilientExecutor::begin_call`] at the start of a call;
//! 2. for [`Decision::Attempt`], wait for `after`, run the operation under the call's
//!    deadline, then report with [`ResilientExecutor::record_success`],
//!    [`ResilientExecutor::record_failure`] or [`ResilientExecutor::record_timeout`];
//! 3. for [`Decision::Fail`], return the failure.
//!
//! Callers that share an executor take turns: each step runs under one lock.
use crate::backoff::backoff_delay;
use crate::breaker::{next_count, Call, CircuitState, Decision, ExecutorModel, Step};
use crate::config::ExecutorConfig;
use crate::error_kind::ErrorKind;
use crate::metrics::{metrics_model, Counter, Metric};
use crate::time::{Moment, Span};
use vstd::prelude::*;
use vstd::string::StringExecFns;

verus! {

/// The breaker's state and its count of entries, which change together.
#[derive(Clone, Copy, Debug)]
struct Breaker {
    state: CircuitState,
    entries: usize,
}

/// A retrying executor with a circuit breaker. Its state is always
/// [consistent](ExecutorModel::consistent).
#[derive(Debug)]
pub struct ResilientExecutor {
    config: ExecutorConfig,
    error_count: usize,
    breaker: Breaker,
    last_error_time: Moment,
}

impl View for ResilientExecutor {
    type V = ExecutorModel;

    closed spec fn view(&self) -> ExecutorModel {
        ExecutorModel {
            config: self.config,
            error_count: self.error_count,
            circuit_state: self.breaker.state,
            last_error_time: self.last_error_time,
            half_open_trial_count: self.breaker.entries,
        }
    }
}

/// The count after one more, which stays at the largest value once it is there.
fn count_up(count: usize) -> (next: usize)
    ensures
        next == next_count(count),
{
    if count < usize::MAX {
        count + 1
    } else {
        count
    }
}

impl ResilientExecutor {
    #[verifier::type_invariant]
    spec fn consistent(&self) -> bool {
        self@.consistent()
    }

    /// An executor with the given settings, made at `now`: closed, with nothing counted.
    pub fn new(config: ExecutorConfig, now: Moment) -> (executor: ResilientExecutor)
        ensures
            executor@ == ExecutorModel::fresh(config, now),
            executor@.consistent(),
    {
        ResilientExecutor {
            config,
            error_count: 0,
            breaker: Breaker { state: CircuitState::Closed, entries: 0 },
            last_error_time: now,
        }
    }

    /// Failures since the last success.
    pub fn error_count(&self) -> (count: usize)
        ensures
            count == self@.error_count,
    {
        self.error_count
    }

    /// The settings that the next call will start under.
    pub fn config(&self) -> (config: ExecutorConfig)
        ensures
            config == self@.config,
    {
        self.config
    }

    /// The breaker's state.
    pub fn circuit_state(&self) -> (state: CircuitState)
        ensures
            state == self@.circuit_state,
            self@.consistent(),
    {
        proof {
            use_type_invariant(self);
        }
        self.breaker.state
    }

    /// When an attempt last failed; when the executor was made, if none has.
    pub fn last_error_time(&self) -> (moment: Moment)
        ensures
            moment == self@.last_error_time,
    {
        self.last_error_time
    }

    /// Calls that have asked for entry since the breaker became half-open.
    pub fn half_open_trial_count(&self) -> (count: usize)
        ensures
            count == self@.half_open_trial_count,
            self@.consistent(),
    {
        proof {
            use_type_invariant(self);
        }
        self.breaker.entries
    }

    /// Replaces the settings. Calls that start later run under the new ones; a call that
    /// has started keeps the settings in its [`Call`].
    pub fn update_config(&mut self, new_config: ExecutorConfig)
        ensures
            final(self)@ == (ExecutorModel { config: new_config, ..old(self)@ }),
            final(self)@.consistent(),
    {
        proof {
            use_type_invariant(&*self);
        }
        self.config = new_config;
    }

    /// Asks the breaker to let a call through at `now`, and says whether it did.
    pub fn check_circuit_state(&mut self, now: Moment) -> (admitted: bool)
        ensures
            admitted == old(self)@.admits(now),
            final(self)@ == old(self)@.after_entry(now),
            old(self)@.consistent(),
            final(self)@.consistent(),
    {
        proof {
            use_type_invariant(&*self);
        }
        match self.breaker.state {
            CircuitState::Closed => true,
            CircuitState::Open(opened_at) => {
                if now.since(opened_at).at_least(self.config.circuit_breaker_duration) {
                    self.breaker = Breaker { state: CircuitState::HalfOpen, entries: 1 };
                    true
                } else {
                    false
                }
            },
            CircuitState::HalfOpen => {
                let entered = self.breaker.entries;
                self.breaker = Breaker { state: CircuitState::HalfOpen, entries: count_up(entered) };
                entered < 1
            },
        }
    }

    /// Opens the breaker at `now`.
    pub fn open_circuit(&mut self, now: Moment)
        ensures
            final(self)@ == old(self)@.opened(now),
            final(self)@.consistent(),
    {
        self.breaker = Breaker { state: CircuitState::Open(now), entries: 0 };
    }

    /// Closes the breaker.
    pub fn close_circuit(&mut self)
        ensures
            final(self)@ == old(self)@.closed(),
            final(self)@.consistent(),
    {
        self.breaker = Breaker { state: CircuitState::Closed, entries: 0 };
    }

    /// Starts a call at `now`: reads the settings, asks the breaker, and says whether to run
    /// the operation or to return a failure without running it.
    pub fn begin_call(&mut self, now: Moment) -> (step: Step)
        ensures
            final(self)@ == old(self)@.after_entry(now),
            step@ == old(self)@.begin_step(now),
            old(self)@.consistent(),
            final(self)@.consistent(),
    {
        let config = self.config;
        let mut metrics: Vec<Metric> = Vec::new();
        if !self.check_circuit_state(now) {
            metrics.push(Metric::Count(Counter::CircuitOpened));
            let step = Step {
                decision: Decision::Fail(
                    ErrorKind::CircuitBreakerActivated {
                        count: self.error_count,
                        duration: config.circuit_breaker_duration,
                    },
                ),
                metrics,
            };
            assert(step@.metrics =~= old(self)@.begin_step(now).metrics);
            step
        } else if config.max_retries == 0 {
            let step = Step {
                decision: Decision::Fail(
                    ErrorKind::RetryLimitExceeded {
                        retries: 0,
                        last_error: String::from_str("Maximum retries reached"),
                    },
                ),
                metrics,
            };
            assert(step@.metrics =~= old(self)@.begin_step(now).metrics);
            step
        } else {
            let step = Step {
                decision: Decision::Attempt { after: Span { nanos: 0 }, call: Call { config, attempt: 0 } },
                metrics,
            };
            assert(step@.metrics =~= old(self)@.begin_step(now).metrics);
            step
        }
    }

    /// Records that an attempt succeeded after `elapsed`: the failures are forgotten and
    /// the breaker closes. Returns what to report to the metrics sink.
    pub fn record_success(&mut self, elapsed: Span) -> (metrics: Vec<Metric>)
        ensures
            final(self)@ == old(self)@.succeed(),
            final(self)@.consistent(),
            metrics_model(metrics@) == ExecutorModel::success_metrics(elapsed),
    {
        proof {
            use_type_invariant(&*self);
        }
        self.error_count = 0;
        self.close_circuit();
        let mut metrics: Vec<Metric> = Vec::new();
        metrics.push(Metric::Count(Counter::Successes));
        metrics.push(Metric::Latency(elapsed));
        assert(metrics_model(metrics@) =~= ExecutorModel::success_metrics(elapsed));
        metrics
    }

    /// Records that an attempt of `call` failed with `error` at `now`, having taken
    /// `elapsed`, and says whether to try again or to return a failure.
    pub fn record_failure(&mut self, call: Call, error: &ErrorKind, now: Moment, elapsed: Span) -> (step:
        Step)
        ensures
            final(self)@ == old(self)@.after_failure(call, now),
            step@ == old(self)@.failure_step(call, error@, elapsed),
            old(self)@.consistent(),
            final(self)@.consistent(),
    {
        proof {
            use_type_invariant(&*self);
        }
        let message = error.render();
        let label = message.clone();
        let trial = match self.breaker.state {
            CircuitState::HalfOpen => true,
            _ => false,
        };
        self.error_count = count_up(self.error_count);
        self.last_error_time = now;
        let mut metrics: Vec<Metric> = Vec::new();
        metrics.push(Metric::Count(Counter::Failures));
        metrics.push(Metric::Count(Counter::FailuresOf(label)));
        if self.error_count >= call.config.circuit_breaker_threshold || trial {
            self.open_circuit(now);
            metrics.push(Metric::Count(Counter::CircuitTripped));
            let step = Step {
                decision: Decision::Fail(
                    ErrorKind::CircuitBreakerActivated {
                        count: self.error_count,
                        duration: call.config.circuit_breaker_duration,
                    },
                ),
                metrics,
            };
            assert(step@.metrics =~= old(self)@.failure_step(call, error@, elapsed).metrics);
            step
        } else if call.config.max_retries <= 1 || call.attempt >= call.config.max_retries - 1 {
            metrics.push(Metric::Count(Counter::MaxRetriesExceeded));
            metrics.push(Metric::Latency(elapsed));
            let step = Step {
                decision: Decision::Fail(
                    ErrorKind::RetryLimitExceeded { retries: count_up(call.attempt), last_error: message },
                ),
                metrics,
            };
            assert(step@.metrics =~= old(self)@.failure_step(call, error@, elapsed).metrics);
            step
        } else {
            let after = backoff_delay(&call.config, call.attempt);
            let step = Step {
                decision: Decision::Attempt {
                    after,
                    call: Call { config: call.config, attempt: call.attempt + 1 },
                },
                metrics,
            };
            assert(step@.metrics =~= old(self)@.failure_step(call, error@, elapsed).metrics);
            step
        }
    }

    /// Says what follows when an attempt of `call` has run into its deadline: the call
    /// ends with [`ErrorKind::OperationTimeout`]. Nothing is counted and nothing is
    /// retried.
    pub fn record_timeout(&self, call: Call) -> (step: Step)
        ensures
            step@ == ExecutorModel::timeout_step(call),
    {
        let mut metrics: Vec<Metric> = Vec::new();
        metrics.push(Metric::Count(Counter::OperationTimeout));
        metrics.push(Metric::Latency(call.config.timeout));
        let step = Step {
            decision: Decision::Fail(ErrorKind::OperationTimeout { duration: call.config.timeout }),
            metrics,
        };
        assert(step@.metrics =~= ExecutorModel::timeout_step(call).metrics);
        step
    }
}

} // verus!
