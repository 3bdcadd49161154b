//! The timing model of interval loops.
//!
//! An interval loop waits out the initial delay, consumes one immediate
//! tick without firing, and then runs.  A fixed-rate loop fires one
//! period after the consumed tick and every period thereafter, whatever
//! the work lasts — executions may overlap.  A fixed-delay loop fires
//! right after the consumed tick and then waits out the work and a full
//! period before firing again — executions never overlap, and the
//! effective period is the interval plus the work.  All times are
//! milliseconds from the loop's own start.

use vstd::prelude::*;

verus! {

/// When the `k`-th invocation (counting from zero) of a fixed-rate loop
/// starts.
pub open spec fn spec_fixed_rate_start(k: nat, initial_delay: nat, interval: nat) -> nat {
    initial_delay + (k + 1) * interval
}

/// When the `k`-th invocation (counting from zero) of a fixed-delay
/// loop starts, for work that lasts `work` each time.
pub open spec fn spec_fixed_delay_start(k: nat, initial_delay: nat, interval: nat, work: nat) -> nat {
    initial_delay + k * (interval + work)
}

/// Consecutive fixed-rate invocations start exactly one interval apart,
/// whatever the work lasts; the loop never waits for completion, so
/// overlap is permitted and the nominal period is kept.
pub proof fn lemma_fixed_rate_period(k: nat, initial_delay: nat, interval: nat)
    ensures
        spec_fixed_rate_start(k + 1, initial_delay, interval) - spec_fixed_rate_start(
            k,
            initial_delay,
            interval,
        ) == interval,
{
    assert((k + 2) * interval == (k + 1) * interval + interval) by (nonlinear_arith);
}

/// Consecutive fixed-delay invocations start a full work-plus-interval
/// apart — never less than the work itself, so two executions of the
/// same task cannot overlap.
pub proof fn lemma_fixed_delay_separation(k: nat, initial_delay: nat, interval: nat, work: nat)
    ensures
        spec_fixed_delay_start(k + 1, initial_delay, interval, work) - spec_fixed_delay_start(
            k,
            initial_delay,
            interval,
            work,
        ) == interval + work,
        spec_fixed_delay_start(k + 1, initial_delay, interval, work) >= spec_fixed_delay_start(
            k,
            initial_delay,
            interval,
            work,
        ) + work,
{
    assert((k + 1) * (interval + work) == k * (interval + work) + (interval + work))
        by (nonlinear_arith);
}

/// The start time of the `k`-th fixed-rate invocation; `None` when it
/// does not fit in 64 bits.
pub fn fixed_rate_start(k: u64, initial_delay_millis: u64, interval_millis: u64) -> (r: Option<
    u64,
>)
    requires
        interval_millis >= 1,
    ensures
        r is Some <==> spec_fixed_rate_start(
            k as nat,
            initial_delay_millis as nat,
            interval_millis as nat,
        ) <= u64::MAX,
        r is Some ==> r->0 == spec_fixed_rate_start(
            k as nat,
            initial_delay_millis as nat,
            interval_millis as nat,
        ),
{
    match k.checked_add(1) {
        None => {
            proof {
                assert((k as nat + 1) * interval_millis as nat >= k as nat + 1)
                    by (nonlinear_arith)
                    requires
                        interval_millis >= 1,
                ;
            }
            None
        },
        Some(kk) => match kk.checked_mul(interval_millis) {
            None => None,
            Some(prod) => initial_delay_millis.checked_add(prod),
        },
    }
}

/// The start time of the `k`-th fixed-delay invocation; `None` when it
/// does not fit in 64 bits.
pub fn fixed_delay_start(
    k: u64,
    initial_delay_millis: u64,
    interval_millis: u64,
    work_millis: u64,
) -> (r: Option<u64>)
    requires
        interval_millis >= 1,
    ensures
        r is Some <==> spec_fixed_delay_start(
            k as nat,
            initial_delay_millis as nat,
            interval_millis as nat,
            work_millis as nat,
        ) <= u64::MAX,
        r is Some ==> r->0 == spec_fixed_delay_start(
            k as nat,
            initial_delay_millis as nat,
            interval_millis as nat,
            work_millis as nat,
        ),
{
    if k == 0 {
        return Some(initial_delay_millis);
    }
    match interval_millis.checked_add(work_millis) {
        None => {
            proof {
                assert(k as nat * (interval_millis as nat + work_millis as nat) >= interval_millis
                    as nat + work_millis as nat) by (nonlinear_arith)
                    requires
                        k >= 1,
                ;
            }
            None
        },
        Some(step) => match k.checked_mul(step) {
            None => None,
            Some(prod) => initial_delay_millis.checked_add(prod),
        },
    }
}

/// How many fixed-rate invocations have started by `horizon`
/// (inclusive).  Running a loop with period 100 for 950 after no delay
/// sees nine starts, at 100 through 900 — the consumed immediate tick
/// fires nothing at 0.
pub fn fixed_rate_invocations(initial_delay_millis: u64, interval_millis: u64, horizon: u64) -> (r:
    u64)
    requires
        interval_millis >= 1,
    ensures
        forall|k: nat|
            spec_fixed_rate_start(k, initial_delay_millis as nat, interval_millis as nat)
                <= horizon <==> k < r,
{
    if horizon < initial_delay_millis {
        proof {
            assert forall|k: nat|
                !(spec_fixed_rate_start(k, initial_delay_millis as nat, interval_millis as nat)
                    <= horizon) by {
                assert((k + 1) * interval_millis as nat >= 1) by (nonlinear_arith)
                    requires
                        interval_millis >= 1,
                ;
            }
        }
        return 0;
    }
    let budget = horizon - initial_delay_millis;
    let q = budget / interval_millis;
    proof {
        let b = budget as int;
        let p = interval_millis as int;
        vstd::arithmetic::div_mod::lemma_fundamental_div_mod(b, p);
        assert(b == p * (b / p) + b % p);
        vstd::arithmetic::div_mod::lemma_mod_bound(b, p);
        assert forall|k: nat|
            spec_fixed_rate_start(k, initial_delay_millis as nat, interval_millis as nat)
                <= horizon <==> k < q by {
            if k < q {
                assert((k + 1) * p <= (b / p) * p) by (nonlinear_arith)
                    requires
                        k + 1 <= b / p,
                        p >= 1,
                ;
                assert((b / p) * p <= b);
            } else {
                assert((k + 1) * p >= (b / p + 1) * p) by (nonlinear_arith)
                    requires
                        k + 1 >= b / p + 1,
                        p >= 1,
                ;
                assert((b / p + 1) * p > b) by (nonlinear_arith)
                    requires
                        b == p * (b / p) + b % p,
                        b % p < p,
                ;
            }
        }
    }
    q
}

/// How many fixed-delay invocations have started by `horizon`
/// (inclusive), for work that lasts `work_millis` each time.  A body of
/// 300 on a period of 100 yields starts 400 apart: the effective period
/// is the interval plus the work, not the interval.
pub fn fixed_delay_invocations(
    initial_delay_millis: u64,
    interval_millis: u64,
    work_millis: u64,
    horizon: u64,
) -> (r: u64)
    requires
        interval_millis >= 1,
        interval_millis + work_millis <= u64::MAX,
        horizon < u64::MAX,
    ensures
        forall|k: nat|
            spec_fixed_delay_start(
                k,
                initial_delay_millis as nat,
                interval_millis as nat,
                work_millis as nat,
            ) <= horizon <==> k < r,
{
    if horizon < initial_delay_millis {
        proof {
            assert forall|k: nat|
                !(spec_fixed_delay_start(
                    k,
                    initial_delay_millis as nat,
                    interval_millis as nat,
                    work_millis as nat,
                ) <= horizon) by {
                assert(k * (interval_millis as nat + work_millis as nat) >= 0);
            }
        }
        return 0;
    }
    let budget = horizon - initial_delay_millis;
    let step = interval_millis + work_millis;
    let q = budget / step;
    proof {
        let b = budget as int;
        let p = step as int;
        vstd::arithmetic::div_mod::lemma_fundamental_div_mod(b, p);
        vstd::arithmetic::div_mod::lemma_mod_bound(b, p);
        assert(b / p <= b) by (nonlinear_arith)
            requires
                p >= 1,
                b >= 0,
                b == p * (b / p) + b % p,
                b % p >= 0,
        ;
        assert forall|k: nat|
            spec_fixed_delay_start(
                k,
                initial_delay_millis as nat,
                interval_millis as nat,
                work_millis as nat,
            ) <= horizon <==> k < q + 1 by {
            if k < q + 1 {
                assert(k * p <= (b / p) * p) by (nonlinear_arith)
                    requires
                        k <= b / p,
                        p >= 1,
                ;
                assert((b / p) * p <= b);
            } else {
                assert(k * p >= (b / p + 1) * p) by (nonlinear_arith)
                    requires
                        k >= b / p + 1,
                        p >= 1,
                ;
                assert((b / p + 1) * p > b) by (nonlinear_arith)
                    requires
                        b == p * (b / p) + b % p,
                        b % p < p,
                ;
            }
        }
    }
    q + 1
}

} // verus!
