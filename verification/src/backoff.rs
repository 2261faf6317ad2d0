//! Backoff calculator: exponential delay with a cap, plus randomized jitter.

use rand::Rng;
use vstd::prelude::*;
use vstd::arithmetic::power2::{
    pow2, lemma_pow2_pos, lemma_pow2_unfold, lemma_pow2_strictly_increases, lemma2_to64,
};
use vstd::arithmetic::mul::lemma_mul_inequality;

verus! {

/// Growth of the exponential is clamped at this attempt number; beyond it
/// the pre-jitter delay is constant (and in practice already capped).
pub const MAX_EXPONENT: usize = 16;

/// The backoff base actually used: a zero base is lifted to one
/// time-unit to avoid a degenerate zero delay.
pub open spec fn spec_effective_base(base_ms: u64) -> u64 {
    if base_ms == 0 {
        1u64
    } else {
        base_ms
    }
}

/// The cap actually applied to the pre-jitter delay: a zero cap is lifted
/// to one time-unit.
pub open spec fn spec_effective_cap(cap_ms: u64) -> u64 {
    if cap_ms == 0 {
        1u64
    } else {
        cap_ms
    }
}

/// The exponent used for the given attempt, clamped to `MAX_EXPONENT`.
pub open spec fn spec_exponent(attempt: usize) -> nat {
    if attempt > MAX_EXPONENT {
        MAX_EXPONENT as nat
    } else {
        attempt as nat
    }
}

/// The uncapped exponential candidate delay, saturating at `u64::MAX`.
pub open spec fn spec_candidate(attempt: usize, base_ms: u64) -> u64 {
    let c = spec_effective_base(base_ms) * pow2(spec_exponent(attempt));
    if c > u64::MAX {
        u64::MAX
    } else {
        c as u64
    }
}

/// The delay, in milliseconds, for the given attempt before jitter is
/// added: the exponential candidate, capped at the effective cap.
pub open spec fn spec_pre_delay(attempt: usize, base_ms: u64, cap_ms: u64) -> u64 {
    let cand = spec_candidate(attempt, base_ms);
    let cap = spec_effective_cap(cap_ms);
    if cand < cap {
        cand
    } else {
        cap
    }
}

/// Computes 2 to the power of `exp` for the small exponents the backoff
/// calculator uses.
fn pow2_u64(exp: usize) -> (p: u64)
    requires
        exp <= MAX_EXPONENT,
    ensures
        p == pow2(exp as nat),
{
    let mut i: usize = 0;
    let mut p: u64 = 1;
    proof {
        lemma2_to64();
    }
    while i < exp
        invariant
            i <= exp <= MAX_EXPONENT,
            p == pow2(i as nat),
        decreases exp - i,
    {
        proof {
            lemma2_to64();
            if (i as nat) < 16 {
                lemma_pow2_strictly_increases(i as nat, 16);
            }
            lemma_pow2_unfold((i + 1) as nat);
        }
        p = p * 2;
        i = i + 1;
    }
    p
}

/// The deterministic part of the backoff: the exponential, saturated and
/// capped delay for the given attempt, before jitter.
pub fn pre_jitter_delay(attempt: usize, base_ms: u64, cap_ms: u64) -> (d: u64)
    ensures
        d == spec_pre_delay(attempt, base_ms, cap_ms),
{
    let base: u64 = if base_ms == 0 {
        1
    } else {
        base_ms
    };
    let exp: usize = if attempt > MAX_EXPONENT {
        MAX_EXPONENT
    } else {
        attempt
    };
    let factor = pow2_u64(exp);
    let candidate: u64 = match base.checked_mul(factor) {
        Some(c) => c,
        None => u64::MAX,
    };
    let cap: u64 = if cap_ms == 0 {
        1
    } else {
        cap_ms
    };
    if candidate < cap {
        candidate
    } else {
        cap
    }
}

/// Relies on rand's `Rng::gen_range` over `0..=bound`: the drawn value lies
/// in the (never empty) range, so it is at most `bound`. Nothing more is
/// assumed of it; the draw is random.
#[verifier::external_body]
fn random_jitter(bound: u64) -> (j: u64)
    ensures
        j <= bound,
{
    rand::thread_rng().gen_range(0..=bound)
}

/// Adds a jitter value to a pre-jitter delay. Deterministic: given the same
/// delay and the same drawn jitter, the result is the same.
pub fn apply_jitter(pre_delay: u64, jitter: u64) -> (d: u64)
    requires
        jitter <= pre_delay / 4,
        pre_delay + pre_delay / 4 <= u64::MAX,
    ensures
        d == pre_delay + jitter,
{
    pre_delay + jitter
}

/// The full backoff delay for the given attempt: the capped exponential
/// delay plus a uniformly random jitter in `[0, delay / 4]`.
///
/// The requirement keeps the sum of the largest possible delay and its
/// jitter within `u64`; any realistic cap is far below it.
pub fn delay_for(attempt: usize, base_ms: u64, cap_ms: u64) -> (d: u64)
    requires
        spec_effective_cap(cap_ms) + spec_effective_cap(cap_ms) / 4 <= u64::MAX,
    ensures
        spec_pre_delay(attempt, base_ms, cap_ms) <= d,
        d <= spec_pre_delay(attempt, base_ms, cap_ms) + spec_pre_delay(attempt, base_ms, cap_ms) / 4,
{
    let pre = pre_jitter_delay(attempt, base_ms, cap_ms);
    proof {
        vstd::arithmetic::div_mod::lemma_div_is_ordered(
            pre as int,
            spec_effective_cap(cap_ms) as int,
            4,
        );
    }
    let jitter = random_jitter(pre / 4);
    apply_jitter(pre, jitter)
}

/// Law: for every attempt from the first retry on, the pre-jitter delay
/// lies between one time-unit and the effective cap.
pub proof fn lemma_pre_delay_bounds(attempt: usize, base_ms: u64, cap_ms: u64)
    requires
        1 <= attempt,
    ensures
        1 <= spec_pre_delay(attempt, base_ms, cap_ms),
        spec_pre_delay(attempt, base_ms, cap_ms) <= spec_effective_cap(cap_ms),
{
    let b = spec_effective_base(base_ms) as int;
    let p = pow2(spec_exponent(attempt)) as int;
    lemma_pow2_pos(spec_exponent(attempt));
    lemma_mul_inequality(1, b, p);
}

/// Law: the pre-jitter delay is non-decreasing in the attempt number (the
/// exponential grows until it reaches the cap or the exponent clamp).
pub proof fn lemma_pre_delay_monotone(a1: usize, a2: usize, base_ms: u64, cap_ms: u64)
    requires
        a1 <= a2,
    ensures
        spec_pre_delay(a1, base_ms, cap_ms) <= spec_pre_delay(a2, base_ms, cap_ms),
{
    let b = spec_effective_base(base_ms) as int;
    let e1 = spec_exponent(a1);
    let e2 = spec_exponent(a2);
    if e1 < e2 {
        lemma_pow2_strictly_increases(e1, e2);
    }
    lemma_pow2_pos(e1);
    lemma_mul_inequality(pow2(e1) as int, pow2(e2) as int, b);
}

} // verus!
