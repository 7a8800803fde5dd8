//! Lengths of time and points in time, in whole nanoseconds.
use vstd::prelude::*;

verus! {

/// Nanoseconds in one millisecond.
pub const NANOS_PER_MILLI: u64 = 1_000_000;

/// Nanoseconds in one second.
pub const NANOS_PER_SEC: u64 = 1_000_000_000;

/// A length of time. Every value is valid; the longest is a little over 584 years.
#[derive(Clone, Copy, Debug, PartialEq, Eq, Structural)]
pub struct Span {
    pub nanos: u64,
}

/// A reading of a monotonic clock: the time since the clock's origin.
#[derive(Clone, Copy, Debug, PartialEq, Eq, Structural)]
pub struct Moment {
    pub nanos: u64,
}

/// `units` times `scale` nanoseconds, or the longest span where that does not fit.
pub open spec fn scaled_nanos(units: u64, scale: u64) -> int {
    if units * scale <= u64::MAX {
        units * scale
    } else {
        u64::MAX as int
    }
}

/// The text that `std::time::Duration`'s `Debug` form gives a length of `nanos` nanoseconds
/// (`60s`, `100ms`, `1.5s`).
pub uninterp spec fn duration_debug(nanos: u64) -> Seq<char>;

impl Span {
    /// The span of `nanos` nanoseconds.
    pub fn from_nanos(nanos: u64) -> (span: Span)
        ensures
            span.nanos == nanos,
    {
        Span { nanos }
    }

    /// The span of `millis` milliseconds, or the longest span where that does not fit.
    pub fn from_millis(millis: u64) -> (span: Span)
        ensures
            span.nanos == scaled_nanos(millis, NANOS_PER_MILLI),
    {
        if millis <= u64::MAX / NANOS_PER_MILLI {
            assert(millis * NANOS_PER_MILLI <= u64::MAX) by (nonlinear_arith)
                requires
                    millis <= u64::MAX / NANOS_PER_MILLI,
            ;
            Span { nanos: millis * NANOS_PER_MILLI }
        } else {
            assert(millis * NANOS_PER_MILLI > u64::MAX) by (nonlinear_arith)
                requires
                    millis > u64::MAX / NANOS_PER_MILLI,
            ;
            Span { nanos: u64::MAX }
        }
    }

    /// The span of `secs` seconds, or the longest span where that does not fit.
    pub fn from_secs(secs: u64) -> (span: Span)
        ensures
            span.nanos == scaled_nanos(secs, NANOS_PER_SEC),
    {
        if secs <= u64::MAX / NANOS_PER_SEC {
            assert(secs * NANOS_PER_SEC <= u64::MAX) by (nonlinear_arith)
                requires
                    secs <= u64::MAX / NANOS_PER_SEC,
            ;
            Span { nanos: secs * NANOS_PER_SEC }
        } else {
            assert(secs * NANOS_PER_SEC > u64::MAX) by (nonlinear_arith)
                requires
                    secs > u64::MAX / NANOS_PER_SEC,
            ;
            Span { nanos: u64::MAX }
        }
    }

    /// Whether this span is at least as long as `other`.
    pub fn at_least(&self, other: Span) -> (yes: bool)
        ensures
            yes == (self.nanos >= other.nanos),
    {
        self.nanos >= other.nanos
    }

    /// This span as `std::time::Duration` prints it for debugging.
    pub fn render(&self) -> (text: String)
        ensures
            text@ == duration_debug(self.nanos),
    {
        render_duration(self.nanos)
    }
}

impl Moment {
    /// The reading `nanos` nanoseconds after the clock's origin.
    pub fn from_nanos(nanos: u64) -> (moment: Moment)
        ensures
            moment.nanos == nanos,
    {
        Moment { nanos }
    }

    /// The time that passed from `earlier` to this reading; zero where `earlier` is in fact
    /// the later of the two.
    pub fn since(&self, earlier: Moment) -> (elapsed: Span)
        ensures
            elapsed.nanos == elapsed_nanos(*self, earlier),
    {
        if self.nanos >= earlier.nanos {
            Span { nanos: self.nanos - earlier.nanos }
        } else {
            Span { nanos: 0 }
        }
    }
}

/// Nanoseconds from `earlier` to `later`, zero where the order is the other way round.
pub open spec fn elapsed_nanos(later: Moment, earlier: Moment) -> int {
    if later.nanos >= earlier.nanos {
        later.nanos - earlier.nanos
    } else {
        0
    }
}

/// The debugging text of a length of time.
///
/// Trusted: the body builds `std::time::Duration::from_nanos(nanos)` and prints it with
/// `{:?}`. The text depends on the length alone; the contract only gives it its name.
#[verifier::external_body]
fn render_duration(nanos: u64) -> (text: String)
    ensures
        text@ == duration_debug(nanos),
{
    format!("{:?}", std::time::Duration::from_nanos(nanos))
}

} // verus!
