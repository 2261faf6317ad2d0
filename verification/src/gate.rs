//! The concurrency gate: a counting admission primitive bounding the
//! number of simultaneously in-flight decorated calls.
//!
//! This is the admission counter with its invariant. The asynchronous driver
//! pairs it with a wait/notify primitive: a caller refused here parks until
//! a slot frees up, and the permit's release is the only way the held count
//! decreases.

use vstd::prelude::*;

verus! {

/// The admission counter: a fixed capacity and the number of slots held.
/// The held count never exceeds the capacity.
pub struct Gate {
    capacity: usize,
    held: usize,
}

/// One operation applied to a gate over its lifetime.
#[derive(Clone, Copy, Debug, PartialEq, Eq)]
pub enum GateOp {
    /// A caller asked for a slot (granted only if one was free).
    Acquire,
    /// A caller gave its slot back.
    Release,
}

/// The held count after a gate of the given capacity, starting empty, has
/// seen the given operations in order. An acquire when every slot is taken,
/// or a release when nothing is held, leaves the count unchanged.
pub open spec fn spec_apply_ops(capacity: nat, ops: Seq<GateOp>) -> nat
    decreases ops.len(),
{
    if ops.len() == 0 {
        0
    } else {
        let held = spec_apply_ops(capacity, ops.drop_last());
        match ops.last() {
            GateOp::Acquire => if held < capacity {
                held + 1
            } else {
                held
            },
            GateOp::Release => if held > 0 {
                (held - 1) as nat
            } else {
                held
            },
        }
    }
}

/// Law: whatever sequence of acquires and releases a gate sees, the number
/// of held slots never exceeds its capacity — at most `capacity` calls are
/// past admission at any instant.
pub proof fn lemma_gate_bounded(capacity: nat, ops: Seq<GateOp>)
    ensures
        spec_apply_ops(capacity, ops) <= capacity,
    decreases ops.len(),
{
    if ops.len() > 0 {
        lemma_gate_bounded(capacity, ops.drop_last());
    }
}

impl Gate {
    /// The fixed number of admission slots.
    pub closed spec fn spec_capacity(&self) -> usize {
        self.capacity
    }

    /// The number of slots currently held.
    pub closed spec fn spec_held(&self) -> usize {
        self.held
    }

    /// Well-formedness: the held count is bounded by the capacity.
    pub open spec fn wf(&self) -> bool {
        self.spec_held() <= self.spec_capacity()
    }

    /// Creates a gate of the given capacity with no slot held.
    pub fn new(capacity: usize) -> (g: Gate)
        ensures
            g.spec_capacity() == capacity,
            g.spec_held() == 0,
            g.wf(),
    {
        Gate { capacity, held: 0 }
    }

    /// Asks for a slot: granted exactly when a slot is free, in which case
    /// the held count goes up by one.
    pub fn try_acquire(&mut self) -> (granted: bool)
        requires
            old(self).wf(),
        ensures
            final(self).spec_capacity() == old(self).spec_capacity(),
            granted == (old(self).spec_held() < old(self).spec_capacity()),
            granted ==> final(self).spec_held() == old(self).spec_held() + 1,
            !granted ==> final(self).spec_held() == old(self).spec_held(),
            final(self).wf(),
    {
        if self.held < self.capacity {
            self.held = self.held + 1;
            true
        } else {
            false
        }
    }

    /// Gives a held slot back: the held count goes down by one. Must be
    /// called exactly once per granted acquire, on every exit path of the
    /// call that acquired it.
    pub fn release(&mut self)
        requires
            old(self).wf(),
            old(self).spec_held() >= 1,
        ensures
            final(self).spec_capacity() == old(self).spec_capacity(),
            final(self).spec_held() == old(self).spec_held() - 1,
            final(self).wf(),
    {
        self.held = self.held - 1;
    }

    /// The fixed number of admission slots.
    pub fn capacity(&self) -> (c: usize)
        ensures
            c == self.spec_capacity(),
    {
        self.capacity
    }

    /// The number of slots currently held.
    pub fn held(&self) -> (h: usize)
        ensures
            h == self.spec_held(),
    {
        self.held
    }
}

} // verus!
