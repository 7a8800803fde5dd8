//! The delay between two attempts of one call.
use crate::config::ExecutorConfig;
use crate::time::Span;
use vstd::arithmetic::power2::{lemma_pow2_pos, lemma_pow2_strictly_increases, lemma_pow2_unfold, pow2};
use vstd::prelude::*;

verus! {

/// The delay after failed attempt number `attempt` (the first is number 0), in
/// nanoseconds: `base` doubled `attempt` times, and no more than `cap`.
pub open spec fn backoff_nanos(base: nat, cap: nat, attempt: nat) -> nat {
    if base * pow2(attempt) <= cap {
        base * pow2(attempt)
    } else {
        cap
    }
}

/// A delay that has reached the cap stays there.
proof fn lemma_doubling_is_monotonic(base: nat, lower: nat, upper: nat)
    requires
        lower <= upper,
    ensures
        base * pow2(lower) <= base * pow2(upper),
{
    if lower < upper {
        lemma_pow2_strictly_increases(lower, upper);
    }
    assert(base * pow2(lower) <= base * pow2(upper)) by (nonlinear_arith)
        requires
            pow2(lower) <= pow2(upper),
    ;
}

/// The delay to wait after failed attempt number `attempt` of a call, the first being
/// number 0.
pub fn backoff_delay(config: &ExecutorConfig, attempt: usize) -> (delay: Span)
    ensures
        delay.nanos as nat == backoff_nanos(
            config.base_delay.nanos as nat,
            config.max_delay.nanos as nat,
            attempt as nat,
        ),
{
    let base: u64 = config.base_delay.nanos;
    let cap: u64 = config.max_delay.nanos;
    proof {
        lemma_pow2_pos(attempt as nat);
        assert(base * pow2(attempt as nat) >= base) by (nonlinear_arith)
            requires
                pow2(attempt as nat) >= 1,
        ;
        assert(base == 0 ==> base * pow2(attempt as nat) == 0) by (nonlinear_arith);
    }
    if base == 0 {
        return Span { nanos: 0 };
    }
    if base >= cap {
        return Span { nanos: cap };
    }
    let mut delay: u64 = base;
    let mut doubled: usize = 0;
    proof {
        lemma_pow2_unfold(1);
        assert(pow2(0) == 1) by {
            vstd::arithmetic::power2::lemma2_to64();
        }
        assert(base * pow2(0) == base) by (nonlinear_arith)
            requires
                pow2(0) == 1,
        ;
    }
    while doubled < attempt
        invariant
            base == config.base_delay.nanos,
            cap == config.max_delay.nanos,
            doubled <= attempt,
            delay as nat == base * pow2(doubled as nat),
            0 < delay < cap,
        decreases attempt - doubled,
    {
        if delay >= cap - delay {
            proof {
                lemma_pow2_unfold((doubled + 1) as nat);
                assert(base * pow2((doubled + 1) as nat) == 2 * (base * pow2(doubled as nat)))
                    by (nonlinear_arith)
                    requires
                        pow2((doubled + 1) as nat) == 2 * pow2(doubled as nat),
                ;
                lemma_doubling_is_monotonic(base as nat, (doubled + 1) as nat, attempt as nat);
            }
            return Span { nanos: cap };
        }
        proof {
            lemma_pow2_unfold((doubled + 1) as nat);
            assert(base * pow2((doubled + 1) as nat) == 2 * (base * pow2(doubled as nat)))
                by (nonlinear_arith)
                requires
                    pow2((doubled + 1) as nat) == 2 * pow2(doubled as nat),
            ;
        }
        delay = delay + delay;
        doubled = doubled + 1;
    }
    Span { nanos: delay }
}

} // verus!
