use tower_resilience::backoff::{delay_for, pre_jitter_delay, MAX_EXPONENT};
use tower_resilience::gate::Gate;
use tower_resilience::layer::ResilienceLayer;
use tower_resilience::retry::{decide, run_scripted, AttemptOutcome, Step};
use tower_resilience::{Policy, ResilienceError};

#[test]
fn retries_until_success() {
    let policy = Policy {
        timeout: 200,
        max_retries: 5,
        base_delay: 1,
        max_delay: 5,
        max_inflight: 5,
    };
    let script: Vec<AttemptOutcome<&str, &str>> = vec![
        AttemptOutcome::Failure("fail"),
        AttemptOutcome::Failure("fail"),
        AttemptOutcome::Success("ok"),
    ];
    let out = run_scripted(&policy, script);
    assert_eq!(out.0.unwrap().unwrap(), "ok");
}

#[test]
fn default_policy_values() {
    let p = Policy::default();
    assert_eq!(p.timeout, 2000);
    assert_eq!(p.max_retries, 2);
    assert_eq!(p.base_delay, 50);
    assert_eq!(p.max_delay, 500);
    assert_eq!(p.max_inflight, 100);
}

#[test]
fn pre_jitter_delay_doubles_until_cap() {
    assert_eq!(pre_jitter_delay(1, 50, 500), 100);
    assert_eq!(pre_jitter_delay(2, 50, 500), 200);
    assert_eq!(pre_jitter_delay(3, 50, 500), 400);
    assert_eq!(pre_jitter_delay(4, 50, 500), 500);
    assert_eq!(pre_jitter_delay(5, 50, 500), 500);
}

#[test]
fn pre_jitter_delay_small_cap() {
    assert_eq!(pre_jitter_delay(1, 1, 5), 2);
    assert_eq!(pre_jitter_delay(2, 1, 5), 4);
    assert_eq!(pre_jitter_delay(3, 1, 5), 5);
    assert_eq!(pre_jitter_delay(4, 1, 5), 5);
}

#[test]
fn pre_jitter_delay_zero_base_and_cap_lifted_to_one() {
    assert_eq!(pre_jitter_delay(1, 0, 0), 1);
    assert_eq!(pre_jitter_delay(1, 0, 100), 2);
    assert_eq!(pre_jitter_delay(0, 0, 100), 1);
}

#[test]
fn pre_jitter_delay_exponent_clamped() {
    assert_eq!(MAX_EXPONENT, 16);
    assert_eq!(pre_jitter_delay(16, 1, u64::MAX / 2), 65536);
    assert_eq!(pre_jitter_delay(17, 1, u64::MAX / 2), 65536);
    assert_eq!(pre_jitter_delay(1000, 1, u64::MAX / 2), 65536);
}

#[test]
fn pre_jitter_delay_saturates_instead_of_wrapping() {
    assert_eq!(pre_jitter_delay(16, u64::MAX / 2, u64::MAX / 2), u64::MAX / 2);
}

#[test]
fn pre_jitter_delay_non_decreasing_in_attempt() {
    let mut previous: u64 = 0;
    for attempt in 1..=16usize {
        let d = pre_jitter_delay(attempt, 3, 100_000);
        assert!(d >= previous);
        previous = d;
    }
}

#[test]
fn delay_for_stays_within_jitter_bounds() {
    for _ in 0..50 {
        let d = delay_for(3, 1, 5);
        assert!((5..=6).contains(&d));
        let d = delay_for(1, 4, 1000);
        assert!((8..=10).contains(&d));
        let d = delay_for(2, 50, 500);
        assert!((200..=250).contains(&d));
    }
}

#[test]
fn decide_success_finishes_at_once() {
    let s: Step<u32, &str> = decide(AttemptOutcome::Success(7), 0, 3);
    assert_eq!(s, Step::Finished(Ok(7)));
}

#[test]
fn decide_failure_within_budget_retries() {
    let s: Step<u32, &str> = decide(AttemptOutcome::Failure("boom"), 1, 3);
    assert_eq!(s, Step::Retry { next_attempt: 2 });
}

#[test]
fn decide_failure_at_budget_surfaces_inner_error() {
    let s: Step<u32, &str> = decide(AttemptOutcome::Failure("boom"), 3, 3);
    assert_eq!(s, Step::Finished(Err(ResilienceError::Inner("boom"))));
}

#[test]
fn decide_timeout_within_budget_retries() {
    let s: Step<u32, &str> = decide(AttemptOutcome::TimedOut, 0, 1);
    assert_eq!(s, Step::Retry { next_attempt: 1 });
}

#[test]
fn decide_timeout_at_budget_surfaces_timeout() {
    let s: Step<u32, &str> = decide(AttemptOutcome::TimedOut, 0, 0);
    assert_eq!(s, Step::Finished(Err(ResilienceError::Timeout)));
}

#[test]
fn fails_twice_then_succeeds_after_three_invocations() {
    let policy = Policy {
        timeout: 200,
        max_retries: 5,
        base_delay: 1,
        max_delay: 5,
        max_inflight: 5,
    };
    let script: Vec<AttemptOutcome<u32, &str>> = vec![
        AttemptOutcome::Failure("e"),
        AttemptOutcome::Failure("e"),
        AttemptOutcome::Success(200),
    ];
    let (result, invocations) = run_scripted(&policy, script);
    assert_eq!(result, Some(Ok(200)));
    assert_eq!(invocations, 3);
}

#[test]
fn always_failing_yields_inner_error_not_timeout() {
    let policy = Policy {
        max_retries: 3,
        ..Policy::default()
    };
    let script: Vec<AttemptOutcome<u32, &str>> = vec![
        AttemptOutcome::Failure("E"),
        AttemptOutcome::Failure("E"),
        AttemptOutcome::Failure("E"),
        AttemptOutcome::Failure("E"),
    ];
    let (result, invocations) = run_scripted(&policy, script);
    assert_eq!(result, Some(Err(ResilienceError::Inner("E"))));
    assert_eq!(invocations, 4);
}

#[test]
fn always_slow_yields_timeout_after_all_attempts() {
    let policy = Policy {
        timeout: 10,
        max_retries: 3,
        ..Policy::default()
    };
    let script: Vec<AttemptOutcome<u32, &str>> =
        vec![AttemptOutcome::TimedOut; 4];
    let (result, invocations) = run_scripted(&policy, script);
    assert_eq!(result, Some(Err(ResilienceError::Timeout)));
    assert_eq!(invocations, 4);
}

#[test]
fn exhausted_script_reports_every_invocation() {
    let policy = Policy {
        max_retries: 3,
        ..Policy::default()
    };
    let script: Vec<AttemptOutcome<u32, &str>> = vec![
        AttemptOutcome::Failure("E"),
        AttemptOutcome::Failure("E"),
    ];
    let (result, invocations) = run_scripted(&policy, script);
    assert_eq!(result, None);
    assert_eq!(invocations, 2);

    let empty: Vec<AttemptOutcome<u32, &str>> = vec![];
    let (result, invocations) = run_scripted(&policy, empty);
    assert_eq!(result, None);
    assert_eq!(invocations, 0);
}

#[test]
fn last_inner_error_is_the_one_surfaced() {
    let policy = Policy {
        max_retries: 2,
        ..Policy::default()
    };
    let script: Vec<AttemptOutcome<u32, &str>> = vec![
        AttemptOutcome::Failure("first"),
        AttemptOutcome::Failure("second"),
        AttemptOutcome::Failure("last"),
    ];
    let (result, _) = run_scripted(&policy, script);
    assert_eq!(result, Some(Err(ResilienceError::Inner("last"))));
}

#[test]
fn gate_admits_only_up_to_capacity() {
    let mut gate = Gate::new(1);
    assert_eq!(gate.capacity(), 1);
    assert_eq!(gate.held(), 0);
    assert!(gate.try_acquire());
    assert_eq!(gate.held(), 1);
    assert!(!gate.try_acquire());
    gate.release();
    assert_eq!(gate.held(), 0);
    assert!(gate.try_acquire());
}

#[test]
fn gate_counts_slots_across_many_callers() {
    let mut gate = Gate::new(3);
    assert!(gate.try_acquire());
    assert!(gate.try_acquire());
    assert!(gate.try_acquire());
    assert!(!gate.try_acquire());
    assert_eq!(gate.held(), 3);
    gate.release();
    gate.release();
    assert_eq!(gate.held(), 1);
    assert!(gate.try_acquire());
    assert!(gate.try_acquire());
    assert!(!gate.try_acquire());
}

#[test]
fn layer_carries_its_policy() {
    let policy = Policy {
        timeout: 7,
        max_retries: 1,
        base_delay: 2,
        max_delay: 9,
        max_inflight: 4,
    };
    let layer = ResilienceLayer::new(policy);
    assert_eq!(layer.policy(), policy);
}

#[test]
fn error_variants_are_distinguishable() {
    let timeout: ResilienceError<&str> = ResilienceError::Timeout;
    let inner: ResilienceError<&str> = ResilienceError::Inner("E");
    assert!(matches!(timeout, ResilienceError::Timeout));
    assert!(matches!(inner, ResilienceError::Inner("E")));
    assert_ne!(timeout, inner);
}
