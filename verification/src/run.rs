//! A whole call as a mathematical function of how its attempts end.
use crate::breaker::{Decision, DecisionModel, ExecutorModel};
use crate::error_kind::{ErrorKind, ErrorModel};
use crate::executor::ResilientExecutor;
use crate::time::{Moment, Span};
use vstd::prelude::*;

verus! {

/// How one attempt ended, as a value that a program holds.
#[derive(Debug)]
pub enum AttemptOutcome {
    /// The operation returned a value after `elapsed`.
    Succeeded { elapsed: Span },
    /// The operation returned `error` at the moment `at`, after `elapsed`.
    Failed { error: ErrorKind, at: Moment, elapsed: Span },
    /// The operation ran into the deadline.
    TimedOut,
}

impl View for AttemptOutcome {
    type V = Outcome;

    open spec fn view(&self) -> Outcome {
        match self {
            AttemptOutcome::Succeeded { elapsed } => Outcome::Succeeded { elapsed: *elapsed },
            AttemptOutcome::Failed { error, at, elapsed } => Outcome::Failed {
                error: error@,
                at: *at,
                elapsed: *elapsed,
            },
            AttemptOutcome::TimedOut => Outcome::TimedOut,
        }
    }
}

/// A list of outcomes as a mathematical value.
pub open spec fn outcomes_model(outcomes: Seq<AttemptOutcome>) -> Seq<Outcome> {
    outcomes.map_values(|outcome: AttemptOutcome| outcome@)
}

/// How a call ended, as a value that a program holds.
#[derive(Debug)]
pub enum CallEnding {
    /// The call waits for the outcome of its next attempt.
    Pending,
    /// The call returned the operation's value.
    Returned,
    /// The call returned this failure.
    Failed(ErrorKind),
}

impl View for CallEnding {
    type V = Ending;

    open spec fn view(&self) -> Ending {
        match self {
            CallEnding::Pending => Ending::Pending,
            CallEnding::Returned => Ending::Returned,
            CallEnding::Failed(error) => Ending::Failed(error@),
        }
    }
}

/// What a replayed call did.
#[derive(Debug)]
pub struct CallReport {
    /// How often the operation was run.
    pub attempts: usize,
    /// The time waited before each attempt, in order.
    pub waits: Vec<Span>,
    pub ending: CallEnding,
}

/// How one attempt ended.
pub ghost enum Outcome {
    /// The operation returned a value after `elapsed`.
    Succeeded { elapsed: Span },
    /// The operation returned `error` at the moment `at`, after `elapsed`.
    Failed { error: ErrorModel, at: Moment, elapsed: Span },
    /// The operation ran into the deadline.
    TimedOut,
}

/// How a call ended.
pub ghost enum Ending {
    /// The call waits for the outcome of its next attempt.
    Pending,
    /// The call returned the operation's value.
    Returned,
    /// The call returned this failure.
    Failed(ErrorModel),
}

/// A call as far as it has run.
pub ghost struct Run {
    /// The executor's state.
    pub model: ExecutorModel,
    /// How often the operation was run.
    pub attempts: nat,
    /// The time waited before each attempt, in order.
    pub waits: Seq<Span>,
    pub ending: Ending,
}

/// The call that stands at `decision` after `made` attempts, run on: attempt number `i`
/// ends as `outcomes[i]` says.
pub open spec fn drive(
    model: ExecutorModel,
    decision: DecisionModel,
    outcomes: Seq<Outcome>,
    made: nat,
    waits: Seq<Span>,
) -> Run
    decreases outcomes.len() - made,
{
    match decision {
        DecisionModel::Fail(error) => Run { model, attempts: made, waits, ending: Ending::Failed(error) },
        DecisionModel::Attempt { after, call } => if made >= outcomes.len() {
            Run { model, attempts: made, waits, ending: Ending::Pending }
        } else {
            match outcomes[made as int] {
                Outcome::Succeeded { .. } => Run {
                    model: model.succeed(),
                    attempts: made + 1,
                    waits: waits.push(after),
                    ending: Ending::Returned,
                },
                Outcome::TimedOut => drive(
                    model,
                    ExecutorModel::timeout_step(call).decision,
                    outcomes,
                    made + 1,
                    waits.push(after),
                ),
                Outcome::Failed { error, at, elapsed } => drive(
                    model.after_failure(call, at),
                    model.failure_step(call, error, elapsed).decision,
                    outcomes,
                    made + 1,
                    waits.push(after),
                ),
            }
        },
    }
}

/// The call that arrives at `now`, run on: attempt number `i` ends as `outcomes[i]` says.
pub open spec fn execute(model: ExecutorModel, now: Moment, outcomes: Seq<Outcome>) -> Run {
    drive(model.after_entry(now), model.begin_step(now).decision, outcomes, 0, seq![])
}

/// Runs a call that arrives at `now` against outcomes that are known beforehand: attempt
/// number `i` ends as `outcomes[i]` says. The executor ends in the state in which the
/// call leaves it.
pub fn replay(executor: &mut ResilientExecutor, now: Moment, outcomes: &Vec<AttemptOutcome>) -> (report:
    CallReport)
    ensures
        ({
            let run = execute(old(executor)@, now, outcomes_model(outcomes@));
            &&& final(executor)@ == run.model
            &&& report.attempts == run.attempts
            &&& report.waits@ == run.waits
            &&& report.ending@ == run.ending
        }),
{
    let ghost script = outcomes_model(outcomes@);
    let ghost goal = execute(executor@, now, script);
    let first = executor.begin_call(now);
    let mut decision = first.decision;
    let mut made: usize = 0;
    let mut waits: Vec<Span> = Vec::new();
    assert(waits@ =~= seq![]);
    loop
        invariant
            script == outcomes_model(outcomes@),
            goal == execute(old(executor)@, now, script),
            made <= outcomes.len(),
            drive(executor@, decision@, script, made as nat, waits@) == goal,
        decreases outcomes.len() - made,
    {
        match decision {
            Decision::Fail(error) => {
                return CallReport { attempts: made, waits, ending: CallEnding::Failed(error) };
            },
            Decision::Attempt { after, call } => {
                if made >= outcomes.len() {
                    return CallReport { attempts: made, waits, ending: CallEnding::Pending };
                }
                assert(script[made as int] == outcomes@[made as int]@);
                waits.push(after);
                match &outcomes[made] {
                    AttemptOutcome::Succeeded { elapsed } => {
                        let _ = executor.record_success(*elapsed);
                        return CallReport { attempts: made + 1, waits, ending: CallEnding::Returned };
                    },
                    AttemptOutcome::TimedOut => {
                        let step = executor.record_timeout(call);
                        decision = step.decision;
                    },
                    AttemptOutcome::Failed { error, at, elapsed } => {
                        let step = executor.record_failure(call, error, *at, *elapsed);
                        decision = step.decision;
                    },
                }
                made = made + 1;
            },
        }
    }
}

} // verus!
