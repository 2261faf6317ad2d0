//! The decorator's per-call retry state machine.
//!
//! One decorated call is a loop: invoke the inner service with a timeout,
//! classify the outcome, and either finish or back off and try again.
//! `decide` is that classification, a pure function of the outcome and the
//! attempt counter; the asynchronous driver performs one attempt, feeds the
//! outcome in, and obeys the step handed back. `run_scripted` runs the same
//! loop to completion against a scripted sequence of outcomes.

use vstd::prelude::*;
use crate::error::ResilienceError;
use crate::policy::Policy;

verus! {

/// The classified result of one attempt against the inner service: it
/// answered successfully, it answered with an error, or the per-attempt
/// timeout elapsed first.
#[derive(Clone, Copy, Debug, PartialEq, Eq)]
pub enum AttemptOutcome<R, E> {
    /// The inner call completed with this response before the timeout.
    Success(R),
    /// The inner call completed with this error before the timeout.
    Failure(E),
    /// The timeout elapsed before the inner call completed.
    TimedOut,
}

/// What the decorator does after one attempt: produce the final result, or
/// back off and try again with the incremented attempt counter.
#[derive(Debug, PartialEq, Eq)]
pub enum Step<R, E> {
    /// The call is over; this is its outcome.
    Finished(Result<R, ResilienceError<E>>),
    /// Back off, then run the attempt numbered `next_attempt`.
    Retry { next_attempt: usize },
}

/// The decorator's transition function. A success finishes at once; a
/// failure or a timeout finishes — as `Inner` or `Timeout` respectively —
/// once `attempt` has reached `max_retries`, and otherwise asks for one
/// more attempt.
pub open spec fn spec_decide<R, E>(
    outcome: AttemptOutcome<R, E>,
    attempt: usize,
    max_retries: usize,
) -> Step<R, E> {
    match outcome {
        AttemptOutcome::Success(r) => Step::Finished(Ok(r)),
        AttemptOutcome::Failure(e) => if attempt >= max_retries {
            Step::Finished(Err(ResilienceError::Inner(e)))
        } else {
            Step::Retry { next_attempt: (attempt + 1) as usize }
        },
        AttemptOutcome::TimedOut => if attempt >= max_retries {
            Step::Finished(Err(ResilienceError::Timeout))
        } else {
            Step::Retry { next_attempt: (attempt + 1) as usize }
        },
    }
}

/// Classifies one attempt's outcome: the executable form of `spec_decide`.
pub fn decide<R, E>(outcome: AttemptOutcome<R, E>, attempt: usize, max_retries: usize) -> (s: Step<
    R,
    E,
>)
    ensures
        s == spec_decide(outcome, attempt, max_retries),
{
    match outcome {
        AttemptOutcome::Success(r) => Step::Finished(Ok(r)),
        AttemptOutcome::Failure(e) => if attempt >= max_retries {
            Step::Finished(Err(ResilienceError::Inner(e)))
        } else {
            Step::Retry { next_attempt: attempt + 1 }
        },
        AttemptOutcome::TimedOut => if attempt >= max_retries {
            Step::Finished(Err(ResilienceError::Timeout))
        } else {
            Step::Retry { next_attempt: attempt + 1 }
        },
    }
}

/// The result of running the retry loop against a scripted sequence of
/// attempt outcomes, starting from the given attempt counter: the final
/// result together with the number of inner invocations consumed, or `None`
/// if the script ran out before the loop finished.
pub open spec fn spec_run_from<R, E>(
    script: Seq<AttemptOutcome<R, E>>,
    attempt: usize,
    max_retries: usize,
) -> Option<(Result<R, ResilienceError<E>>, int)>
    decreases script.len(),
{
    if script.len() == 0 {
        None
    } else {
        match spec_decide(script[0], attempt, max_retries) {
            Step::Finished(res) => Some((res, 1)),
            Step::Retry { next_attempt } => match spec_run_from(
                script.drop_first(),
                next_attempt,
                max_retries,
            ) {
                None => None,
                Some((res, n)) => Some((res, n + 1)),
            },
        }
    }
}

/// `spec_run_from` started at the first attempt, numbered 0.
pub open spec fn spec_run<R, E>(
    script: Seq<AttemptOutcome<R, E>>,
    max_retries: usize,
) -> Option<(Result<R, ResilienceError<E>>, int)> {
    spec_run_from(script, 0, max_retries)
}

/// Runs the whole retry loop of one decorated call against a deterministic
/// scripted inner service: the outcome of attempt `i` is `script[i]`.
/// Returns the final result — `None` if the script was exhausted before the
/// loop finished — together with the number of inner invocations made.
/// Backoff sleeps are irrelevant to the result and are skipped.
#[verifier::loop_isolation(false)]
pub fn run_scripted<R, E>(policy: &Policy, script: Vec<AttemptOutcome<R, E>>) -> (out: (
    Option<Result<R, ResilienceError<E>>>,
    usize,
))
    ensures
        match spec_run(script@, policy.max_retries) {
            Some((res, n)) => out.0 == Some(res) && out.1 == n,
            None => out.0 is None && out.1 == script@.len(),
        },
{
    let ghost full = script@;
    let mut remaining = script;
    let total: usize = remaining.len();
    let mut attempt: usize = 0;
    let mut made: usize = 0;
    while remaining.len() > 0
        invariant
            made + remaining@.len() == full.len(),
            attempt == made,
            remaining@ == full.subrange(made as int, full.len() as int),
            spec_run(full, policy.max_retries) == match spec_run_from(
                remaining@,
                attempt,
                policy.max_retries,
            ) {
                Some((res, n)) => Some((res, n + made)),
                None => None::<(Result<R, ResilienceError<E>>, int)>,
            },
        decreases remaining@.len(),
    {
        let ghost before = remaining@;
        let ev = remaining.remove(0);
        proof {
            assert(remaining@ =~= before.drop_first());
        }
        match decide(ev, attempt, policy.max_retries) {
            Step::Finished(res) => {
                return (Some(res), made + 1);
            },
            Step::Retry { next_attempt } => {
                attempt = next_attempt;
                made = made + 1;
                proof {
                    assert(remaining@ =~= full.subrange(made as int, full.len() as int));
                }
            },
        }
    }
    (None, total)
}

/// Law: against a permanently failing inner service, the decorator makes
/// exactly `max_retries + 1` inner invocations and then surfaces the last
/// attempt's inner error.
pub proof fn lemma_all_failures_exhaust<R, E>(
    script: Seq<AttemptOutcome<R, E>>,
    max_retries: usize,
)
    requires
        script.len() == max_retries + 1,
        forall|i: int| 0 <= i < script.len() ==> script[i] is Failure,
    ensures
        spec_run(script, max_retries) == Some(
            (
                Err::<R, ResilienceError<E>>(ResilienceError::Inner(script.last()->Failure_0)),
                max_retries + 1,
            ),
        ),
{
    lemma_failures_exhaust_from(script, 0, max_retries);
}

/// Inductive step behind `lemma_all_failures_exhaust`: from attempt
/// `attempt` on, a script of `max_retries + 1 - attempt` failures ends in
/// `Inner` of its last error after consuming the whole script.
proof fn lemma_failures_exhaust_from<R, E>(
    script: Seq<AttemptOutcome<R, E>>,
    attempt: usize,
    max_retries: usize,
)
    requires
        script.len() >= 1,
        attempt + script.len() == max_retries + 1,
        forall|i: int| 0 <= i < script.len() ==> script[i] is Failure,
    ensures
        spec_run_from(script, attempt, max_retries) == Some(
            (
                Err::<R, ResilienceError<E>>(ResilienceError::Inner(script.last()->Failure_0)),
                script.len() as int,
            ),
        ),
    decreases script.len(),
{
    if script.len() == 1 {
    } else {
        lemma_failures_exhaust_from(script.drop_first(), (attempt + 1) as usize, max_retries);
        assert(script.drop_first().last() == script.last());
    }
}

/// Law: against a permanently slow inner service — every attempt times
/// out — the decorator makes exactly `max_retries + 1` inner invocations
/// and then surfaces `Timeout`.
pub proof fn lemma_all_timeouts_exhaust<R, E>(
    script: Seq<AttemptOutcome<R, E>>,
    max_retries: usize,
)
    requires
        script.len() == max_retries + 1,
        forall|i: int| 0 <= i < script.len() ==> script[i] is TimedOut,
    ensures
        spec_run(script, max_retries) == Some(
            (Err::<R, ResilienceError<E>>(ResilienceError::Timeout), max_retries + 1),
        ),
{
    lemma_timeouts_exhaust_from(script, 0, max_retries);
}

/// Inductive step behind `lemma_all_timeouts_exhaust`.
proof fn lemma_timeouts_exhaust_from<R, E>(
    script: Seq<AttemptOutcome<R, E>>,
    attempt: usize,
    max_retries: usize,
)
    requires
        script.len() >= 1,
        attempt + script.len() == max_retries + 1,
        forall|i: int| 0 <= i < script.len() ==> script[i] is TimedOut,
    ensures
        spec_run_from(script, attempt, max_retries) == Some(
            (Err::<R, ResilienceError<E>>(ResilienceError::Timeout), script.len() as int),
        ),
    decreases script.len(),
{
    if script.len() == 1 {
    } else {
        lemma_timeouts_exhaust_from(script.drop_first(), (attempt + 1) as usize, max_retries);
    }
}

/// Law: the decorator's behaviour is a function of the Policy value alone.
/// Two decorators built from equal Policies take the same steps on the same
/// outcomes, produce the same result on the same script, and compute the
/// same backoff delays (the jitter draw being supplied from outside, equal
/// draws give equal delays, by `apply_jitter`'s contract).
pub proof fn lemma_equal_policies_equal_behaviour<R, E>(
    p1: Policy,
    p2: Policy,
    script: Seq<AttemptOutcome<R, E>>,
)
    requires
        p1 == p2,
    ensures
        forall|outcome: AttemptOutcome<R, E>, attempt: usize|
            spec_decide(outcome, attempt, p1.max_retries) == spec_decide(
                outcome,
                attempt,
                p2.max_retries,
            ),
        spec_run(script, p1.max_retries) == spec_run(script, p2.max_retries),
        forall|attempt: usize|
            crate::backoff::spec_pre_delay(attempt, p1.base_delay, p1.max_delay)
                == crate::backoff::spec_pre_delay(attempt, p2.base_delay, p2.max_delay),
{
}

} // verus!
