//! The engine's frame timer.
//!
//! The timer decides when the per-frame update callback runs; in this
//! version it runs the callback once per tick.

use vstd::prelude::*;

verus! {

/// Frame timer driving the update callback.
pub struct Timer {}

impl Timer {
    /// A fresh timer.
    pub fn new() -> (t: Timer) {
        Timer {  }
    }

    /// Run one tick's worth of updates: the callback has run when the tick
    /// returns, so its postcondition holds.
    pub fn tick<F: Fn() -> ()>(&self, update: F)
        requires
            update.requires(()),
        ensures
            update.ensures((), ()),
    {
        update();
    }
}

impl Default for Timer {
    /// Same as [`Timer::new`].
    fn default() -> (t: Timer) {
        Timer {  }
    }
}

} // verus!
