//! Deferred resource reclamation ledger.
//!
//! Destroying a GPU resource never frees it on the spot: command buffers
//! submitted from past frame slots may still reference it. Instead the handle
//! is queued on the frame slot that was current at the moment of destruction,
//! and the queue is flushed exactly once, when that slot comes around again
//! and its fence proves the GPU is done.

use vstd::prelude::*;

verus! {

/// A buffer handle together with its backing memory.
#[derive(Debug, Clone, Copy, PartialEq, Eq, Structural)]
pub struct BufferAlloc {
    pub buffer: u64,
    pub memory: u64,
}

/// An image handle together with its backing memory.
#[derive(Debug, Clone, Copy, PartialEq, Eq, Structural)]
pub struct ImageAlloc {
    pub image: u64,
    pub memory: u64,
}

/// Per-frame-slot queues of destroyed-but-not-yet-freed GPU handles.
#[derive(Debug, Clone)]
pub struct ReclaimLedger {
    pub pipelines: Vec<u64>,
    pub buffers: Vec<BufferAlloc>,
    pub images: Vec<ImageAlloc>,
}

impl ReclaimLedger {
    /// Whether no handle is queued.
    pub open spec fn spec_is_empty(self) -> bool {
        self.pipelines@.len() == 0 && self.buffers@.len() == 0 && self.images@.len() == 0
    }

    /// An empty ledger.
    pub fn new() -> (r: ReclaimLedger)
        ensures
            r.spec_is_empty(),
    {
        ReclaimLedger { pipelines: Vec::new(), buffers: Vec::new(), images: Vec::new() }
    }

    /// Queue a destroyed pipeline handle.
    pub fn push_pipeline(&mut self, pipeline: u64)
        ensures
            final(self).pipelines@ == old(self).pipelines@.push(pipeline),
            final(self).buffers@ == old(self).buffers@,
            final(self).images@ == old(self).images@,
    {
        self.pipelines.push(pipeline);
    }

    /// Queue a destroyed buffer with its backing memory.
    pub fn push_buffer(&mut self, buffer: BufferAlloc)
        ensures
            final(self).pipelines@ == old(self).pipelines@,
            final(self).buffers@ == old(self).buffers@.push(buffer),
            final(self).images@ == old(self).images@,
    {
        self.buffers.push(buffer);
    }

    /// Queue a destroyed image with its backing memory.
    pub fn push_image(&mut self, image: ImageAlloc)
        ensures
            final(self).pipelines@ == old(self).pipelines@,
            final(self).buffers@ == old(self).buffers@,
            final(self).images@ == old(self).images@.push(image),
    {
        self.images.push(image);
    }

    /// Drain the ledger: the returned queues hold exactly what was queued, in
    /// order, and the ledger is empty afterwards, so every record is handed
    /// out exactly once.
    pub fn flush(&mut self) -> (r: ReclaimLedger)
        ensures
            r.pipelines@ == old(self).pipelines@,
            r.buffers@ == old(self).buffers@,
            r.images@ == old(self).images@,
            final(self).spec_is_empty(),
    {
        let mut out = ReclaimLedger::new();
        core::mem::swap(&mut out, self);
        out
    }
}

} // verus!
