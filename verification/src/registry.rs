//! The single-slot store of the process identifier that can be cancelled.

use vstd::prelude::*;

verus! {

/// Holds at most one process identifier: that of the process a cancellation
/// request would terminate.
///
/// The slot is a plain value. A caller that shares it between tasks keeps it
/// behind its own lock and mutates it only while holding that lock.
#[derive(Debug)]
pub struct Registry {
    slot: Option<u32>,
}

impl View for Registry {
    type V = Option<u32>;

    closed spec fn view(&self) -> Option<u32> {
        self.slot
    }
}

impl Registry {
    /// An empty registry: no process is tracked.
    pub fn new() -> (r: Registry)
        ensures
            r@ is None,
    {
        Registry { slot: None }
    }

    /// Tracks `pid`, forgetting whatever was tracked before.
    pub fn set(&mut self, pid: u32)
        ensures
            final(self)@ == Some(pid),
    {
        self.slot = Some(pid);
    }

    /// Hands out the tracked identifier and leaves the slot empty, in one step.
    pub fn take_and_clear(&mut self) -> (taken: Option<u32>)
        ensures
            taken == old(self)@,
            final(self)@ is None,
    {
        let taken = self.slot;
        self.slot = None;
        taken
    }

    /// The tracked identifier, if any, without changing the slot.
    pub fn active(&self) -> (pid: Option<u32>)
        ensures
            pid == self@,
    {
        self.slot
    }
}

} // verus!
