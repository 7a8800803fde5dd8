//! What holds of every executor, proved from the state machine.
use crate::backoff::backoff_nanos;
use crate::breaker::{next_count, Call, CircuitState, DecisionModel, ExecutorModel};
use crate::config::ExecutorConfig;
use crate::error_kind::ErrorModel;
use crate::run::{drive, execute, Ending, Outcome, Run};
use crate::time::{elapsed_nanos, Moment, Span};
use vstd::prelude::*;

verus! {

/// The delays that a call waits before its attempts number 0 up to `count - 1`: none
/// before the first, then the backoff after each failed attempt.
pub open spec fn backoff_waits(config: ExecutorConfig, count: nat) -> Seq<Span> {
    Seq::new(
        count,
        |i: int|
            if i == 0 {
                Span { nanos: 0 }
            } else {
                Span {
                    nanos: backoff_nanos(
                        config.base_delay.nanos as nat,
                        config.max_delay.nanos as nat,
                        (i - 1) as nat,
                    ) as u64,
                }
            },
    )
}

/// Whether the first `count` of `outcomes` are all failures.
pub open spec fn all_failed(outcomes: Seq<Outcome>, count: nat) -> bool {
    &&& count <= outcomes.len()
    &&& forall|i: int| 0 <= i < count ==> (#[trigger] outcomes[i]) is Failed
}

/// The state after a closed executor has counted `failures` further failures, the last
/// at `last`, without opening.
pub open spec fn after_failures(model: ExecutorModel, failures: nat, last: Moment) -> ExecutorModel {
    if failures == 0 {
        model
    } else {
        ExecutorModel {
            error_count: (model.error_count + failures) as usize,
            last_error_time: last,
            ..model
        }
    }
}

/// Induction for [`law_failing_call_uses_every_attempt`]: a call that has made `made`
/// attempts, all failed, and goes on failing.
proof fn lemma_failing_call(
    start: ExecutorModel,
    model: ExecutorModel,
    outcomes: Seq<Outcome>,
    made: nat,
    waits: Seq<Span>,
)
    requires
        start.circuit_state == CircuitState::Closed,
        start.config.max_retries >= 1,
        all_failed(outcomes, start.config.max_retries as nat),
        start.error_count + start.config.max_retries < start.config.circuit_breaker_threshold,
        made < start.config.max_retries,
        model == after_failures(
            start,
            made,
            if made == 0 {
                start.last_error_time
            } else {
                outcomes[made - 1]->Failed_at
            },
        ),
        waits == backoff_waits(start.config, made),
    ensures
        ({
            let n = start.config.max_retries as nat;
            let call = Call { config: start.config, attempt: made as usize };
            let after = if made == 0 {
                Span { nanos: 0 }
            } else {
                Span {
                    nanos: backoff_nanos(
                        start.config.base_delay.nanos as nat,
                        start.config.max_delay.nanos as nat,
                        (made - 1) as nat,
                    ) as u64,
                }
            };
            drive(model, DecisionModel::Attempt { after, call }, outcomes, made, waits) == (Run {
                model: after_failures(start, n, outcomes[n - 1]->Failed_at),
                attempts: n,
                waits: backoff_waits(start.config, n),
                ending: Ending::Failed(
                    ErrorModel::RetryLimitExceeded {
                        retries: n as usize,
                        last_error: outcomes[n - 1]->Failed_error.rendered(),
                    },
                ),
            })
        }),
    decreases start.config.max_retries - made,
{
    reveal_with_fuel(drive, 2);
    let n = start.config.max_retries as nat;
    let call = Call { config: start.config, attempt: made as usize };
    let outcome = outcomes[made as int];
    assert(outcome is Failed);
    let at = outcome->Failed_at;
    let after = if made == 0 {
        Span { nanos: 0 }
    } else {
        Span {
            nanos: backoff_nanos(
                start.config.base_delay.nanos as nat,
                start.config.max_delay.nanos as nat,
                (made - 1) as nat,
            ) as u64,
        }
    };
    let next = model.after_failure(call, at);
    assert(!model.trips(call));
    assert(next == after_failures(start, made + 1, at));
    assert(waits.push(after) =~= backoff_waits(start.config, made + 1));
    if made + 1 < n {
        lemma_failing_call(start, next, outcomes, made + 1, waits.push(after));
    }
}

/// A call to a closed executor whose operation fails every time runs the operation
/// exactly `max_retries` times and then ends with `RetryLimitExceeded`, which names that
/// number and the last failure's message, as long as the failures stay under the
/// breaker's threshold. Between the attempts it waits the backoff delays, in order.
pub proof fn law_failing_call_uses_every_attempt(model: ExecutorModel, now: Moment, outcomes: Seq<Outcome>)
    requires
        model.circuit_state == CircuitState::Closed,
        all_failed(outcomes, model.config.max_retries as nat),
        model.error_count + model.config.max_retries < model.config.circuit_breaker_threshold,
    ensures
        ({
            let n = model.config.max_retries as nat;
            let run = execute(model, now, outcomes);
            &&& run.attempts == n
            &&& run.waits == backoff_waits(model.config, n)
            &&& run.model.circuit_state == CircuitState::Closed
            &&& run.model.error_count == model.error_count + n
            &&& run.ending == Ending::Failed(
                ErrorModel::RetryLimitExceeded {
                    retries: n as usize,
                    last_error: if n == 0 {
                        "Maximum retries reached"@
                    } else {
                        outcomes[n - 1]->Failed_error.rendered()
                    },
                },
            )
        }),
{
    let n = model.config.max_retries as nat;
    if n == 0 {
        assert(backoff_waits(model.config, 0) =~= seq![]);
    } else {
        assert(backoff_waits(model.config, 0) =~= seq![]);
        lemma_failing_call(model, model, outcomes, 0, seq![]);
    }
}

/// Whether a failure is one of the three that an executor itself ends a call with.
pub open spec fn is_executor_failure(error: ErrorModel) -> bool {
    ||| error is RetryLimitExceeded
    ||| error is CircuitBreakerActivated
    ||| error is OperationTimeout
}

/// Whether a call that has made `made` attempts can stand at `decision` under settings
/// that allow `limit` attempts.
pub open spec fn in_bounds(decision: DecisionModel, made: nat, limit: nat) -> bool {
    match decision {
        DecisionModel::Attempt { call, .. } => {
            &&& call.attempt == made
            &&& call.config.max_retries == limit
            &&& made < limit
        },
        DecisionModel::Fail(error) => made <= limit && is_executor_failure(error),
    }
}

/// Induction for [`law_calls_stay_within_bounds`].
proof fn lemma_drive_stays_within_bounds(
    model: ExecutorModel,
    decision: DecisionModel,
    outcomes: Seq<Outcome>,
    made: nat,
    waits: Seq<Span>,
    limit: nat,
)
    requires
        in_bounds(decision, made, limit),
    ensures
        ({
            let run = drive(model, decision, outcomes, made, waits);
            &&& run.attempts <= limit
            &&& run.ending matches Ending::Failed(error) ==> is_executor_failure(error)
        }),
    decreases outcomes.len() - made,
{
    match decision {
        DecisionModel::Fail(_) => {},
        DecisionModel::Attempt { after, call } => {
            if made < outcomes.len() {
                match outcomes[made as int] {
                    Outcome::Succeeded { .. } => {},
                    Outcome::TimedOut => {
                        lemma_drive_stays_within_bounds(
                            model,
                            ExecutorModel::timeout_step(call).decision,
                            outcomes,
                            made + 1,
                            waits.push(after),
                            limit,
                        );
                    },
                    Outcome::Failed { error, at, elapsed } => {
                        lemma_drive_stays_within_bounds(
                            model.after_failure(call, at),
                            model.failure_step(call, error, elapsed).decision,
                            outcomes,
                            made + 1,
                            waits.push(after),
                            limit,
                        );
                    },
                }
            }
        },
    }
}

/// Whatever the operation does, a call runs it no more than `max_retries` times, and a
/// call that fails ends with `RetryLimitExceeded`, `CircuitBreakerActivated` or
/// `OperationTimeout`: the operation's own failure is never handed on as it is.
pub proof fn law_calls_stay_within_bounds(model: ExecutorModel, now: Moment, outcomes: Seq<Outcome>)
    ensures
        ({
            let run = execute(model, now, outcomes);
            &&& run.attempts <= model.config.max_retries
            &&& run.ending matches Ending::Failed(error) ==> is_executor_failure(error)
        }),
{
    lemma_drive_stays_within_bounds(
        model.after_entry(now),
        model.begin_step(now).decision,
        outcomes,
        0,
        seq![],
        model.config.max_retries as nat,
    );
}

/// After failed attempt number `attempt` that neither opens the breaker nor is the call's
/// last, the call waits `base_delay` doubled `attempt` times, and no more than
/// `max_delay`, before it runs the operation again.
pub proof fn law_retry_waits_double_up_to_the_cap(
    model: ExecutorModel,
    call: Call,
    error: ErrorModel,
    elapsed: Span,
)
    requires
        !model.trips(call),
        call.attempt + 1 < call.config.max_retries,
    ensures
        model.failure_step(call, error, elapsed).decision matches DecisionModel::Attempt {
            after,
            call: next,
        } && next == (Call { config: call.config, attempt: (call.attempt + 1) as usize })
            && after.nanos as int == vstd::math::min(
            call.config.base_delay.nanos * vstd::arithmetic::power2::pow2(call.attempt as nat),
            call.config.max_delay.nanos as int,
        ),
{
}

/// The failure that takes the failures in a row to the threshold opens the breaker and
/// ends its call with `CircuitBreakerActivated`. A call that arrives before the breaker
/// has served its time is rejected with `CircuitBreakerActivated`, changes nothing, and
/// never runs its operation.
pub proof fn law_threshold_opens_the_breaker(
    model: ExecutorModel,
    call: Call,
    error: ErrorModel,
    now: Moment,
    elapsed: Span,
    later: Moment,
    outcomes: Seq<Outcome>,
)
    requires
        model.circuit_state == CircuitState::Closed,
        next_count(model.error_count) >= call.config.circuit_breaker_threshold,
        elapsed_nanos(later, now) < model.config.circuit_breaker_duration.nanos,
    ensures
        ({
            let open = model.after_failure(call, now);
            let run = execute(open, later, outcomes);
            &&& open.circuit_state == CircuitState::Open(now)
            &&& open.error_count == next_count(model.error_count)
            &&& model.failure_step(call, error, elapsed).decision == DecisionModel::Fail(
                ErrorModel::CircuitBreakerActivated {
                    count: next_count(model.error_count),
                    duration: call.config.circuit_breaker_duration,
                },
            )
            &&& !open.admits(later)
            &&& run.model == open
            &&& run.attempts == 0
            &&& run.ending == Ending::Failed(
                ErrorModel::CircuitBreakerActivated {
                    count: open.error_count,
                    duration: open.config.circuit_breaker_duration,
                },
            )
        }),
{
}

/// Once an open breaker has served its time, the next call makes it half-open and is let
/// through to run its operation. While that trial is under way every other call is
/// rejected with `CircuitBreakerActivated` and runs nothing.
pub proof fn law_half_open_admits_one_trial(
    model: ExecutorModel,
    opened_at: Moment,
    now: Moment,
    next: Moment,
    outcomes: Seq<Outcome>,
)
    requires
        model.circuit_state == CircuitState::Open(opened_at),
        elapsed_nanos(now, opened_at) >= model.config.circuit_breaker_duration.nanos,
        model.config.max_retries >= 1,
    ensures
        ({
            let trial = model.after_entry(now);
            let second = execute(trial, next, outcomes);
            &&& model.admits(now)
            &&& trial.circuit_state == CircuitState::HalfOpen
            &&& model.begin_step(now).decision == (DecisionModel::Attempt {
                after: Span { nanos: 0 },
                call: Call { config: model.config, attempt: 0 },
            })
            &&& !trial.admits(next)
            &&& second.attempts == 0
            &&& second.model.circuit_state == CircuitState::HalfOpen
            &&& second.ending == Ending::Failed(
                ErrorModel::CircuitBreakerActivated {
                    count: model.error_count,
                    duration: model.config.circuit_breaker_duration,
                },
            )
        }),
{
}

/// A new executor's state is consistent, and every step keeps it so.
pub proof fn law_steps_keep_the_state_consistent(
    model: ExecutorModel,
    config: ExecutorConfig,
    call: Call,
    now: Moment,
)
    requires
        model.consistent(),
    ensures
        ExecutorModel::fresh(config, now).consistent(),
        model.after_entry(now).consistent(),
        model.after_failure(call, now).consistent(),
        model.succeed().consistent(),
        model.opened(now).consistent(),
        model.closed().consistent(),
        (ExecutorModel { config, ..model }).consistent(),
{
}

/// While a breaker is half-open, whenever a call arrives, it is rejected with
/// `CircuitBreakerActivated`, runs nothing, and leaves the breaker half-open.
pub proof fn law_half_open_breaker_rejects(model: ExecutorModel, now: Moment, outcomes: Seq<Outcome>)
    requires
        model.consistent(),
        model.circuit_state == CircuitState::HalfOpen,
    ensures
        !model.admits(now),
        ({
            let run = execute(model, now, outcomes);
            &&& run.attempts == 0
            &&& run.model.circuit_state == CircuitState::HalfOpen
            &&& run.model.error_count == model.error_count
            &&& run.ending == Ending::Failed(
                ErrorModel::CircuitBreakerActivated {
                    count: model.error_count,
                    duration: model.config.circuit_breaker_duration,
                },
            )
        }),
{
}

/// A half-open trial that succeeds closes the breaker and forgets the failures. One that
/// fails opens the breaker again, as of the moment of the failure, and ends with
/// `CircuitBreakerActivated`.
pub proof fn law_half_open_trial_settles_the_breaker(
    model: ExecutorModel,
    call: Call,
    error: ErrorModel,
    now: Moment,
    elapsed: Span,
)
    requires
        model.circuit_state == CircuitState::HalfOpen,
    ensures
        model.succeed().circuit_state == CircuitState::Closed,
        model.succeed().error_count == 0,
        model.succeed().half_open_trial_count == 0,
        model.after_failure(call, now).circuit_state == CircuitState::Open(now),
        model.failure_step(call, error, elapsed).decision == DecisionModel::Fail(
            ErrorModel::CircuitBreakerActivated {
                count: next_count(model.error_count),
                duration: call.config.circuit_breaker_duration,
            },
        ),
{
}

/// A success forgets every failure counted before it, however many, and leaves the
/// breaker closed. So a call whose attempt number `made` succeeds returns, whatever came
/// before.
pub proof fn law_success_forgets_failures(
    model: ExecutorModel,
    call: Call,
    after: Span,
    outcomes: Seq<Outcome>,
    made: nat,
    waits: Seq<Span>,
)
    requires
        made < outcomes.len(),
        outcomes[made as int] is Succeeded,
    ensures
        model.succeed().error_count == 0,
        model.succeed().circuit_state == CircuitState::Closed,
        ({
            let run = drive(model, DecisionModel::Attempt { after, call }, outcomes, made, waits);
            &&& run.ending == Ending::Returned
            &&& run.attempts == made + 1
            &&& run.model == model.succeed()
        }),
{
}

/// An attempt that runs into its deadline ends the call at once with `OperationTimeout`,
/// which names the call's deadline. Nothing is counted and the breaker stays as it is.
pub proof fn law_timeout_ends_the_call(
    model: ExecutorModel,
    call: Call,
    after: Span,
    outcomes: Seq<Outcome>,
    made: nat,
    waits: Seq<Span>,
)
    requires
        made < outcomes.len(),
        outcomes[made as int] is TimedOut,
    ensures
        ({
            let run = drive(model, DecisionModel::Attempt { after, call }, outcomes, made, waits);
            &&& run.ending == Ending::Failed(ErrorModel::OperationTimeout { duration: call.config.timeout })
            &&& run.attempts == made + 1
            &&& run.model == model
        }),
{
    reveal_with_fuel(drive, 2);
}

/// New settings reach only the calls that start after them. A call that has started is
/// told the same after a failure or a timeout whatever the executor's settings have
/// become, and leaves the same state behind but for those settings; a call that starts
/// afterwards carries the new settings.
pub proof fn law_started_call_keeps_its_settings(
    model: ExecutorModel,
    new_config: ExecutorConfig,
    call: Call,
    error: ErrorModel,
    now: Moment,
    elapsed: Span,
)
    ensures
        ({
            let updated = ExecutorModel { config: new_config, ..model };
            &&& updated.failure_step(call, error, elapsed) == model.failure_step(call, error, elapsed)
            &&& updated.after_failure(call, now) == (ExecutorModel {
                config: new_config,
                ..model.after_failure(call, now)
            })
            &&& updated.succeed() == (ExecutorModel { config: new_config, ..model.succeed() })
            &&& updated.begin_step(now).decision matches DecisionModel::Attempt { call: started, .. }
                ==> started.config == new_config
        }),
{
}

/// The same for a whole call: from any point at which a call stands, it runs on to the
/// same ending, the same number of attempts and the same waits whatever the executor's
/// settings have become, and leaves the same state behind but for those settings.
pub proof fn law_running_call_ignores_new_settings(
    model: ExecutorModel,
    new_config: ExecutorConfig,
    decision: DecisionModel,
    outcomes: Seq<Outcome>,
    made: nat,
    waits: Seq<Span>,
)
    ensures
        ({
            let updated = ExecutorModel { config: new_config, ..model };
            let run = drive(model, decision, outcomes, made, waits);
            drive(updated, decision, outcomes, made, waits) == (Run {
                model: ExecutorModel { config: new_config, ..run.model },
                ..run
            })
        }),
    decreases outcomes.len() - made,
{
    let updated = ExecutorModel { config: new_config, ..model };
    match decision {
        DecisionModel::Fail(_) => {},
        DecisionModel::Attempt { after, call } => {
            if made < outcomes.len() {
                match outcomes[made as int] {
                    Outcome::Succeeded { .. } => {},
                    Outcome::TimedOut => {
                        law_running_call_ignores_new_settings(
                            model,
                            new_config,
                            ExecutorModel::timeout_step(call).decision,
                            outcomes,
                            made + 1,
                            waits.push(after),
                        );
                    },
                    Outcome::Failed { error, at, elapsed } => {
                        law_running_call_ignores_new_settings(
                            model.after_failure(call, at),
                            new_config,
                            model.failure_step(call, error, elapsed).decision,
                            outcomes,
                            made + 1,
                            waits.push(after),
                        );
                    },
                }
            }
        },
    }
}

} // verus!
