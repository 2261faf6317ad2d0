//! Construction of the decorator: a layer value carrying the Policy that
//! every service built from it shares.

use vstd::prelude::*;
use crate::policy::Policy;

verus! {

/// A factory for resilience decorators: holds the Policy handed to every
/// decorated service it builds.
#[derive(Clone, Copy, Debug)]
pub struct ResilienceLayer {
    policy: Policy,
}

impl ResilienceLayer {
    /// The Policy this layer was built from.
    pub closed spec fn spec_policy(&self) -> Policy {
        self.policy
    }

    /// Creates a layer that decorates services with the given Policy.
    pub fn new(policy: Policy) -> (l: ResilienceLayer)
        ensures
            l.spec_policy() == policy,
    {
        ResilienceLayer { policy }
    }

    /// The Policy this layer was built from.
    pub fn policy(&self) -> (p: Policy)
        ensures
            p == self.spec_policy(),
    {
        self.policy
    }
}

} // verus!
