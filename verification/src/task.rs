//! The sample subsystem's work loop, as a verified countdown.
//!
//! The subsystem performs a fixed number of ticks — pausing and logging
//! around each is its runner's business — and then requests shutdown.
//! Only the decision "tick again or finish" lives here.

use vstd::prelude::*;

verus! {

/// Countdown of the sample subsystem: how many ticks are still owed.
#[derive(Clone, Copy, Debug)]
pub struct TickTask {
    pub remaining: u64,
}

impl TickTask {
    /// A task that will tick `count` times before finishing.
    pub fn new(count: u64) -> (t: TickTask)
        ensures
            t.remaining == count,
    {
        TickTask { remaining: count }
    }

    /// One round of the work loop: reports whether a tick is still owed,
    /// and counts it off. Once the countdown is spent it keeps returning
    /// `false`: the task is done and shutdown should be requested.
    pub fn tick(&mut self) -> (more: bool)
        ensures
            more == (old(self).remaining > 0),
            old(self).remaining > 0 ==> final(self).remaining == old(self).remaining - 1,
            old(self).remaining == 0 ==> final(self).remaining == 0,
    {
        if self.remaining > 0 {
            self.remaining = self.remaining - 1;
            true
        } else {
            false
        }
    }
}

} // verus!
