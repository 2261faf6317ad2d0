//! Error taxonomy surfaced to the decorator's callers.

use vstd::prelude::*;

verus! {

/// Terminal failure of a decorated call. `Timeout` means no inner response
/// was obtained within the allotted attempts; `Inner` carries the inner
/// service's own error value, unmodified, from the final attempt.
#[derive(Clone, Copy, Debug, PartialEq, Eq)]
pub enum ResilienceError<E> {
    /// Attempts were exhausted without any response arriving in time.
    Timeout,
    /// Attempts were exhausted and the inner service reported this failure
    /// on the final attempt.
    Inner(E),
}

} // verus!
