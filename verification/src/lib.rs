//! A resilience decorator for request-processing services: per-attempt
//! timeout, bounded retry with exponential backoff and jitter, and bounded
//! concurrency (admission control).
//!
//! The decision logic — backoff arithmetic, retry/give-up classification,
//! and the admission gate's counter — is verified here. The asynchronous
//! plumbing that drives it (timers, semaphores, the service trait) lives
//! outside the library and consults these functions for every decision.

pub mod backoff;
pub mod error;
pub mod gate;
pub mod layer;
pub mod policy;
pub mod retry;

pub use crate::error::ResilienceError;
pub use crate::gate::Gate;
pub use crate::layer::ResilienceLayer;
pub use crate::policy::Policy;
pub use crate::retry::AttemptOutcome;
pub use crate::retry::Step;
