//! Completed-value model of a fence.
//!
//! A fence is a counter the GPU raises as submitted work finishes.  Here it is
//! held as a plain value so the protocol around it can be verified: the
//! embedding program (or a test) advances it explicitly, standing in for the
//! GPU's progress.  Its one invariant is that the completed value never
//! decreases.

use vstd::prelude::*;

verus! {

/// The last value the GPU is known to have completed.
pub struct Fence {
    pub completed: u64,
}

impl Fence {
    /// A fence that starts at zero, as at device creation.
    pub fn new() -> (f: Fence)
        ensures
            f.completed == 0,
    {
        Fence { completed: 0 }
    }

    /// A fence that starts at a chosen value.
    pub fn with_value(initial_value: u64) -> (f: Fence)
        ensures
            f.completed == initial_value,
    {
        Fence { completed: initial_value }
    }

    /// The current completed value.
    pub fn get_value(&self) -> (v: u64)
        ensures
            v == self.completed,
    {
        self.completed
    }

    /// Raise the completed value; this is the explicit tick that stands in
    /// for GPU progress.  The counter never moves backwards.
    pub fn signal(&mut self, value: u64)
        requires
            old(self).completed <= value,
        ensures
            final(self).completed == value,
    {
        self.completed = value;
    }

    /// Whether all work up to `value` has completed.
    pub fn is_reached(&self, value: u64) -> (r: bool)
        ensures
            r == (self.completed >= value),
    {
        self.completed >= value
    }
}

} // verus!
