use std::time::Duration;

use vstd::prelude::*;

verus! {

/// Controls over an application's virtual clock, which a test can pause,
/// resume and move forward independently of wall-clock time.
pub trait TimeControls {
    /// Whether the virtual clock is paused.
    fn is_paused(&self) -> bool;

    /// Pauses the virtual clock.
    fn pause(&mut self);

    /// Resumes the virtual clock.
    fn unpause(&mut self);

    /// Moves the virtual clock to `duration` after its start, then runs one tick.
    fn advance_time_to(&mut self, duration: Duration);

    /// Moves the virtual clock forward by `duration`, then runs one tick.
    fn advance_time_by(&mut self, duration: Duration);
}

} // verus!
