//! The circuit breaker and the retry policy as a mathematical state machine.
//!
//! An executor's state is an [`ExecutorModel`]. Each step of a call is one transition:
//!
//! - a call arrives: the state becomes [`ExecutorModel::after_entry`] and the call is told
//!   [`ExecutorModel::begin_step`];
//! - an attempt succeeds: the state becomes [`ExecutorModel::succeed`];
//! - an attempt fails: the state becomes [`ExecutorModel::after_failure`] and the call is
//!   told [`ExecutorModel::failure_step`];
//! - an attempt runs into its deadline: the state stays and the call is told
//!   [`ExecutorModel::timeout_step`].
//!
//! Four choices are built in:
//!
//! - A timeout ends its call at once. It is not counted as a failure and not retried. A
//!   half-open trial that times out therefore settles nothing: the breaker stays
//!   half-open, and rejects calls, until it is opened or closed by hand.
//! - The call that finds an open breaker's time served is the half-open trial, and it is
//!   counted as the first entry. Every later call that asks a half-open breaker for entry
//!   is counted too, and rejected.
//! - A failed half-open trial opens the breaker again whatever the count of failures.
//! - Counts stay at the largest value once they reach it; they never wrap round to zero.
use crate::backoff::backoff_nanos;
use crate::config::ExecutorConfig;
use crate::error_kind::{ErrorKind, ErrorModel};
use crate::metrics::{metrics_model, CounterModel, Metric, MetricModel};
use crate::time::{elapsed_nanos, Moment, Span};
use vstd::prelude::*;

verus! {

/// The breaker's state.
#[derive(Clone, Copy, Debug, PartialEq, Eq, Structural)]
pub enum CircuitState {
    /// Calls pass.
    Closed,
    /// Calls are rejected; the breaker opened at the given moment.
    Open(Moment),
    /// One trial call is under way; other calls are rejected.
    HalfOpen,
}

/// A call that the breaker let through.
#[derive(Clone, Copy, Debug, PartialEq, Eq, Structural)]
pub struct Call {
    /// The settings that the executor had when the call started. The call keeps them to
    /// its end, whatever the executor's settings become.
    pub config: ExecutorConfig,
    /// The number of the attempt that the call makes next, the first being 0: as many
    /// attempts as it has made.
    pub attempt: usize,
}

/// What the caller of a step does next.
#[derive(Debug)]
pub enum Decision {
    /// Wait for `after`, then run the operation under the deadline `call.config.timeout`
    /// and report how it ended.
    Attempt { after: Span, call: Call },
    /// The call is over: return this failure.
    Fail(ErrorKind),
}

/// A [`Decision`] as a mathematical value.
pub ghost enum DecisionModel {
    Attempt { after: Span, call: Call },
    Fail(ErrorModel),
}

impl View for Decision {
    type V = DecisionModel;

    open spec fn view(&self) -> DecisionModel {
        match self {
            Decision::Attempt { after, call } => DecisionModel::Attempt { after: *after, call: *call },
            Decision::Fail(error) => DecisionModel::Fail(error@),
        }
    }
}

/// The result of a step: what to do next, and what to report to the metrics sink, in
/// order.
#[derive(Debug)]
pub struct Step {
    pub decision: Decision,
    pub metrics: Vec<Metric>,
}

/// A [`Step`] as a mathematical value.
pub ghost struct StepModel {
    pub decision: DecisionModel,
    pub metrics: Seq<MetricModel>,
}

impl View for Step {
    type V = StepModel;

    open spec fn view(&self) -> StepModel {
        StepModel { decision: self.decision@, metrics: metrics_model(self.metrics@) }
    }
}

/// The next count, which stays at the largest value once it is there.
pub open spec fn next_count(count: usize) -> usize {
    if count < usize::MAX {
        (count + 1) as usize
    } else {
        count
    }
}

/// The message of a call whose settings allow no attempt at all.
pub open spec fn no_attempts_message() -> Seq<char> {
    "Maximum retries reached"@
}

/// The state that the callers of one executor share.
pub ghost struct ExecutorModel {
    /// The settings that the next call will start under.
    pub config: ExecutorConfig,
    /// Failures since the last success.
    pub error_count: usize,
    pub circuit_state: CircuitState,
    /// When an attempt last failed; when the executor was made, if none has.
    pub last_error_time: Moment,
    /// Calls that have asked for entry since the breaker became half-open.
    pub half_open_trial_count: usize,
}

impl ExecutorModel {
    /// A new executor: closed, with nothing counted.
    pub open spec fn fresh(config: ExecutorConfig, now: Moment) -> ExecutorModel {
        ExecutorModel {
            config,
            error_count: 0,
            circuit_state: CircuitState::Closed,
            last_error_time: now,
            half_open_trial_count: 0,
        }
    }

    /// What holds of every state that an executor can be in: entries are counted only
    /// while the breaker is half-open, and a half-open breaker has counted the trial that
    /// made it so.
    pub open spec fn consistent(self) -> bool {
        match self.circuit_state {
            CircuitState::HalfOpen => self.half_open_trial_count >= 1,
            _ => self.half_open_trial_count == 0,
        }
    }

    /// Whether an open breaker that opened at `opened_at` has served its time at `now`.
    pub open spec fn cooled_down(self, opened_at: Moment, now: Moment) -> bool {
        elapsed_nanos(now, opened_at) >= self.config.circuit_breaker_duration.nanos
    }

    /// Whether a call that arrives at `now` is let through.
    ///
    /// A closed breaker lets every call through. An open one lets a call through once it
    /// has served its time, and that call is the trial. A half-open one lets a call through
    /// only if none has asked for entry since it became half-open.
    pub open spec fn admits(self, now: Moment) -> bool {
        match self.circuit_state {
            CircuitState::Closed => true,
            CircuitState::Open(opened_at) => self.cooled_down(opened_at, now),
            CircuitState::HalfOpen => self.half_open_trial_count < 1,
        }
    }

    /// The state after a call has asked for entry at `now`.
    ///
    /// An open breaker that has served its time becomes half-open; its count of entries
    /// starts again, at the one call that is let through. A half-open breaker counts
    /// every call that asks, rejected ones too.
    pub open spec fn after_entry(self, now: Moment) -> ExecutorModel {
        match self.circuit_state {
            CircuitState::Closed => self,
            CircuitState::Open(opened_at) => if self.cooled_down(opened_at, now) {
                ExecutorModel {
                    circuit_state: CircuitState::HalfOpen,
                    half_open_trial_count: 1,
                    ..self
                }
            } else {
                self
            },
            CircuitState::HalfOpen => ExecutorModel {
                half_open_trial_count: next_count(self.half_open_trial_count),
                ..self
            },
        }
    }

    /// The state with the breaker opened at `now`.
    pub open spec fn opened(self, now: Moment) -> ExecutorModel {
        ExecutorModel { circuit_state: CircuitState::Open(now), half_open_trial_count: 0, ..self }
    }

    /// The state with the breaker closed.
    pub open spec fn closed(self) -> ExecutorModel {
        ExecutorModel { circuit_state: CircuitState::Closed, half_open_trial_count: 0, ..self }
    }

    /// The failure with which a call is turned away while the breaker is open.
    pub open spec fn rejection(self, config: ExecutorConfig) -> ErrorModel {
        ErrorModel::CircuitBreakerActivated {
            count: self.error_count,
            duration: config.circuit_breaker_duration,
        }
    }

    /// What a call that arrives at `now` is told.
    pub open spec fn begin_step(self, now: Moment) -> StepModel {
        if !self.admits(now) {
            StepModel {
                decision: DecisionModel::Fail(self.rejection(self.config)),
                metrics: seq![MetricModel::Count(CounterModel::CircuitOpened)],
            }
        } else if self.config.max_retries == 0 {
            StepModel {
                decision: DecisionModel::Fail(
                    ErrorModel::RetryLimitExceeded { retries: 0, last_error: no_attempts_message() },
                ),
                metrics: seq![],
            }
        } else {
            StepModel {
                decision: DecisionModel::Attempt {
                    after: Span { nanos: 0 },
                    call: Call { config: self.config, attempt: 0 },
                },
                metrics: seq![],
            }
        }
    }

    /// The state after a success: nothing counted, breaker closed.
    pub open spec fn succeed(self) -> ExecutorModel {
        ExecutorModel { error_count: 0, ..self.closed() }
    }

    /// What a success reports, `elapsed` being how long the attempt took.
    pub open spec fn success_metrics(elapsed: Span) -> Seq<MetricModel> {
        seq![MetricModel::Count(CounterModel::Successes), MetricModel::Latency(elapsed)]
    }

    /// Whether a failure of `call` opens the breaker: it does where the failures in a row
    /// reach the call's threshold, and where the failed attempt was a half-open trial.
    pub open spec fn trips(self, call: Call) -> bool {
        ||| next_count(self.error_count) >= call.config.circuit_breaker_threshold
        ||| self.circuit_state == CircuitState::HalfOpen
    }

    /// The state after an attempt of `call` has failed at `now`.
    pub open spec fn after_failure(self, call: Call, now: Moment) -> ExecutorModel {
        let counted = ExecutorModel {
            error_count: next_count(self.error_count),
            last_error_time: now,
            ..self
        };
        if self.trips(call) {
            counted.opened(now)
        } else {
            counted
        }
    }

    /// What `call` is told after an attempt has failed with `error`, having taken
    /// `elapsed`.
    pub open spec fn failure_step(self, call: Call, error: ErrorModel, elapsed: Span) -> StepModel {
        let counted = seq![
            MetricModel::Count(CounterModel::Failures),
            MetricModel::Count(CounterModel::FailuresOf(error.rendered())),
        ];
        if self.trips(call) {
            StepModel {
                decision: DecisionModel::Fail(
                    ErrorModel::CircuitBreakerActivated {
                        count: next_count(self.error_count),
                        duration: call.config.circuit_breaker_duration,
                    },
                ),
                metrics: counted.push(MetricModel::Count(CounterModel::CircuitTripped)),
            }
        } else if call.attempt + 1 >= call.config.max_retries {
            StepModel {
                decision: DecisionModel::Fail(
                    ErrorModel::RetryLimitExceeded {
                        retries: next_count(call.attempt),
                        last_error: error.rendered(),
                    },
                ),
                metrics: counted.push(MetricModel::Count(CounterModel::MaxRetriesExceeded)).push(
                    MetricModel::Latency(elapsed),
                ),
            }
        } else {
            StepModel {
                decision: DecisionModel::Attempt {
                    after: Span {
                        nanos: backoff_nanos(
                            call.config.base_delay.nanos as nat,
                            call.config.max_delay.nanos as nat,
                            call.attempt as nat,
                        ) as u64,
                    },
                    call: Call { config: call.config, attempt: (call.attempt + 1) as usize },
                },
                metrics: counted,
            }
        }
    }

    /// What `call` is told after an attempt has run into its deadline. The state stays as
    /// it is: a timeout is neither counted as a failure nor retried.
    pub open spec fn timeout_step(call: Call) -> StepModel {
        StepModel {
            decision: DecisionModel::Fail(ErrorModel::OperationTimeout { duration: call.config.timeout }),
            metrics: seq![
                MetricModel::Count(CounterModel::OperationTimeout),
                MetricModel::Latency(call.config.timeout),
            ],
        }
    }
}

} // verus!
