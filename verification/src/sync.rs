//! Frame synchronisation primitives.
//!
//! A fence is a GPU-to-CPU signal: the CPU blocks on it until the GPU marks
//! it signaled. The model carries the fence's observable state as data: the
//! real wait and the GPU's asynchronous signal are performed by the platform
//! layer (or a test harness standing in for the GPU) and reported through
//! [`Fence::signal`]. A binary semaphore orders GPU-side queue operations and
//! carries no CPU-observable state, so it is modelled as a bare handle.

use vstd::prelude::*;

verus! {

/// A binary semaphore handle, used to order queue operations on the GPU.
#[derive(Debug, Clone, Copy, PartialEq, Eq, Structural)]
pub struct Semaphore {
    pub handle: u64,
}

/// Observable state of a fence.
///
/// `signaled` is the value a fence status query would return; `pending` says
/// a queue submission naming this fence is still executing, so a signal is
/// still owed.
#[derive(Debug, Clone, Copy, PartialEq, Eq, Structural)]
pub struct Fence {
    pub signaled: bool,
    pub pending: bool,
}

impl Fence {
    /// Create a fence, signaled or not; nothing is pending on it.
    pub fn new(signaled: bool) -> (r: Fence)
        ensures
            r.signaled == signaled,
            !r.pending,
    {
        Fence { signaled, pending: false }
    }

    /// Wait for the fence with an effectively infinite timeout.
    ///
    /// Returns whether the caller actually had to block: true exactly when
    /// the fence had not yet signaled at entry. When the wait returns, the
    /// fence is signaled and no submission is pending on it any more.
    pub fn wait(&mut self) -> (waited: bool)
        ensures
            waited == !old(self).signaled,
            final(self).signaled,
            !final(self).pending,
    {
        let waited = !self.signaled;
        self.signaled = true;
        self.pending = false;
        waited
    }

    /// Reset the fence to unsignaled for reuse.
    pub fn reset(&mut self)
        ensures
            !final(self).signaled,
            final(self).pending == old(self).pending,
    {
        self.signaled = false;
    }

    /// Record that a queue submission naming this fence was issued: the GPU
    /// now owes a signal. The fence must be unsignaled and free.
    pub fn mark_pending(&mut self)
        requires
            !old(self).signaled,
            !old(self).pending,
        ensures
            !final(self).signaled,
            final(self).pending,
    {
        self.pending = true;
    }

    /// Record the GPU's signal: the pending submission has finished.
    ///
    /// Driven by the platform layer when a real wait or status query observes
    /// the signal, or by a test harness standing in for the GPU.
    pub fn signal(&mut self)
        requires
            old(self).pending,
        ensures
            final(self).signaled,
            !final(self).pending,
    {
        self.signaled = true;
        self.pending = false;
    }

    /// Whether the fence has signaled.
    pub fn is_signaled(&self) -> (r: bool)
        ensures
            r == self.signaled,
    {
        self.signaled
    }
}

} // verus!
