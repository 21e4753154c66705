//! The engine shell: a timer and the update/draw pair it drives.

use vstd::prelude::*;

use crate::timer::Timer;

verus! {

/// The outermost loop object: owns the timer and runs update and draw once
/// per tick.
pub struct Engine {
    timer: Timer,
}

impl Engine {
    /// One pass of the loop: update under the timer, then draw.
    pub fn tick(&self) {
        self.timer.tick(
            || {
                self.update(&self.timer);
            },
        );
        self.draw();
    }

    /// Advance the simulation; nothing to advance yet.
    fn update(&self, _timer: &Timer) {
    }

    /// Record and submit the frame; nothing to draw yet.
    fn draw(&self) {
    }
}

impl Default for Engine {
    /// An engine with a fresh timer.
    fn default() -> (e: Engine) {
        Engine { timer: Timer::new() }
    }
}

} // verus!
