//! The cooperative stop flag of the scheduler loop.
//!
//! The loop itself performs channel and clock I/O between ticks and lives
//! outside the library; each tick reads due polls with `get_pending`,
//! publishes them, records the outcome with `published_to_tg`, sweeps
//! `get_overdue`, and then consults this flag before going around again.
use vstd::prelude::*;

verus! {

/// The shared running flag: the loop keeps ticking while it is set, and a
/// shutdown request clears it.
#[derive(Debug, Clone, Copy, PartialEq, Eq, Structural)]
pub struct ShutdownToken {
    pub running: bool,
}

impl ShutdownToken {
    /// A fresh token: the loop has not been started yet.
    pub fn new() -> (t: ShutdownToken)
        ensures
            !t.running,
    {
        ShutdownToken { running: false }
    }

    /// Mark the loop as running; done once when it starts.
    pub fn start(&mut self)
        ensures
            final(self).running,
    {
        self.running = true;
    }

    /// Stop the scheduler: the loop finishes its current tick and exits
    /// before the next one.
    pub fn shutdown(&mut self)
        ensures
            !final(self).running,
    {
        self.running = false;
    }

    /// Whether the loop should go around again.
    pub fn running(&self) -> (r: bool)
        ensures
            r == self.running,
    {
        self.running
    }
}

} // verus!
