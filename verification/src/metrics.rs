//! What an executor reports to a metrics sink. Nothing here decides anything.
use crate::time::Span;
use vstd::prelude::*;
use vstd::string::StringExecFns;

verus! {

/// A counter that an executor raises by one.
#[derive(Debug)]
pub enum Counter {
    /// A call succeeded.
    Successes,
    /// An attempt failed.
    Failures,
    /// An attempt failed with the failure whose message this is.
    FailuresOf(String),
    /// A call was rejected by the breaker.
    CircuitOpened,
    /// A failure opened the breaker.
    CircuitTripped,
    /// A call used up its attempts.
    MaxRetriesExceeded,
    /// An attempt ran into its deadline.
    OperationTimeout,
}

/// A [`Counter`] as a mathematical value.
pub ghost enum CounterModel {
    Successes,
    Failures,
    FailuresOf(Seq<char>),
    CircuitOpened,
    CircuitTripped,
    MaxRetriesExceeded,
    OperationTimeout,
}

impl View for Counter {
    type V = CounterModel;

    open spec fn view(&self) -> CounterModel {
        match self {
            Counter::Successes => CounterModel::Successes,
            Counter::Failures => CounterModel::Failures,
            Counter::FailuresOf(message) => CounterModel::FailuresOf(message@),
            Counter::CircuitOpened => CounterModel::CircuitOpened,
            Counter::CircuitTripped => CounterModel::CircuitTripped,
            Counter::MaxRetriesExceeded => CounterModel::MaxRetriesExceeded,
            Counter::OperationTimeout => CounterModel::OperationTimeout,
        }
    }
}

impl CounterModel {
    /// The name under which the sink keeps this counter.
    pub open spec fn name(self) -> Seq<char> {
        match self {
            CounterModel::Successes => "error_manager.successes"@,
            CounterModel::Failures => "error_manager.failures"@,
            CounterModel::FailuresOf(message) => "error_manager.failures."@ + message,
            CounterModel::CircuitOpened => "error_manager.circuit_opened"@,
            CounterModel::CircuitTripped => "error_manager.circuit_tripped"@,
            CounterModel::MaxRetriesExceeded => "error_manager.max_retries_exceeded"@,
            CounterModel::OperationTimeout => "error_manager.operation_timeout"@,
        }
    }
}

impl Counter {
    /// The name under which the sink keeps this counter.
    pub fn name(&self) -> (text: String)
        ensures
            text@ == self@.name(),
    {
        match self {
            Counter::Successes => String::from_str("error_manager.successes"),
            Counter::Failures => String::from_str("error_manager.failures"),
            Counter::FailuresOf(message) => {
                let mut text = String::from_str("error_manager.failures.");
                text.append(message.as_str());
                text
            },
            Counter::CircuitOpened => String::from_str("error_manager.circuit_opened"),
            Counter::CircuitTripped => String::from_str("error_manager.circuit_tripped"),
            Counter::MaxRetriesExceeded => String::from_str("error_manager.max_retries_exceeded"),
            Counter::OperationTimeout => String::from_str("error_manager.operation_timeout"),
        }
    }
}

/// One report to the metrics sink.
#[derive(Debug)]
pub enum Metric {
    /// Raise a counter by one.
    Count(Counter),
    /// Set the latency gauge to how long the attempt took.
    Latency(Span),
}

/// A [`Metric`] as a mathematical value.
pub ghost enum MetricModel {
    Count(CounterModel),
    Latency(Span),
}

impl View for Metric {
    type V = MetricModel;

    open spec fn view(&self) -> MetricModel {
        match self {
            Metric::Count(counter) => MetricModel::Count(counter@),
            Metric::Latency(span) => MetricModel::Latency(*span),
        }
    }
}

impl MetricModel {
    /// The name under which the sink keeps what this report changes.
    pub open spec fn name(self) -> Seq<char> {
        match self {
            MetricModel::Count(counter) => counter.name(),
            MetricModel::Latency(_) => "error_manager.operation_latency"@,
        }
    }
}

impl Metric {
    /// The name under which the sink keeps what this report changes.
    pub fn name(&self) -> (text: String)
        ensures
            text@ == self@.name(),
    {
        match self {
            Metric::Count(counter) => counter.name(),
            Metric::Latency(_) => String::from_str("error_manager.operation_latency"),
        }
    }
}

/// A list of reports as a mathematical value.
pub open spec fn metrics_model(metrics: Seq<Metric>) -> Seq<MetricModel> {
    metrics.map_values(|metric: Metric| metric@)
}

} // verus!
