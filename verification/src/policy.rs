//! Immutable configuration for the resilience decorator.

use vstd::prelude::*;

verus! {

/// Configuration value read by every component of the decorator. All
/// durations are in milliseconds; the fields are fixed at construction.
#[derive(Clone, Copy, Debug, PartialEq, Eq, Structural)]
pub struct Policy {
    /// Maximum wall-clock time, in milliseconds, allowed for one attempt.
    pub timeout: u64,
    /// Number of retry attempts after the first failure; 0 means no retry.
    pub max_retries: usize,
    /// Backoff base, in milliseconds; a value of 0 is treated as 1 to avoid
    /// a degenerate zero delay.
    pub base_delay: u64,
    /// Upper bound, in milliseconds, on the computed delay before jitter.
    pub max_delay: u64,
    /// Capacity of the concurrency gate.
    pub max_inflight: usize,
}

impl Default for Policy {
    fn default() -> (p: Policy)
        ensures
            p.timeout == 2000,
            p.max_retries == 2,
            p.base_delay == 50,
            p.max_delay == 500,
            p.max_inflight == 100,
    {
        Policy {
            timeout: 2000,
            max_retries: 2,
            base_delay: 50,
            max_delay: 500,
            max_inflight: 100,
        }
    }
}

} // verus!
