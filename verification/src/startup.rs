//! What is settled once, before the first connection: the service's
//! settings and the progress of loading the model.

use vstd::prelude::*;

verus! {

/// The settings that the service runs with.
#[derive(Clone, Copy, Debug, PartialEq, Eq, Structural)]
pub struct Settings {
    /// The TCP port to listen on, on all interfaces.
    pub port: u16,
    /// How many tokens a session processes in one internal step.
    pub batch_size: usize,
    /// How many threads a session computes with.
    pub threads: usize,
}

impl Default for Settings {
    /// Port 3000, batches of 8 tokens, 2 threads.
    fn default() -> (settings: Settings)
        ensures
            settings == (Settings { port: 3000, batch_size: 8, threads: 2 }),
    {
        Settings { port: 3000, batch_size: 8, threads: 2 }
    }
}

/// Follows the loading of a model's tensors. The loader reports the number of
/// the tensor it has reached; the tracker turns each report into the number
/// of tensors to move a progress display forward by.
pub struct LoadTracker {
    reached: u64,
}

impl LoadTracker {
    /// The number of the last tensor reported.
    pub closed spec fn reached(&self) -> nat {
        self.reached as nat
    }

    /// A tracker for a load that has not begun.
    pub fn new() -> (tracker: LoadTracker)
        ensures
            tracker.reached() == 0,
    {
        LoadTracker { reached: 0 }
    }

    /// Takes the report that tensor `current` is loaded and returns how far
    /// the display moves: the distance from the last report, or nothing when
    /// the report falls behind it.
    pub fn advance(&mut self, current: u64) -> (delta: u64)
        ensures
            final(self).reached() == current,
            delta == (if current >= old(self).reached() {
                current - old(self).reached()
            } else {
                0
            }),
    {
        let delta: u64 = if current >= self.reached {
            current - self.reached
        } else {
            0
        };
        self.reached = current;
        delta
    }
}

} // verus!
