//! The device: owner of the logical GPU connection, the frame slots with
//! their synchronisation primitives and command recordings, and the deferred
//! reclamation ledger.
//!
//! The frame protocol is `next_frame` / `submit` / `present`, once each per
//! rendered frame. `next_frame` advances the slot index modulo
//! [`FRAMES_IN_FLIGHT`], waits on the new slot's fence (the sole backpressure
//! bounding how far the CPU races ahead of the GPU), resets the fence, opens
//! a fresh command recording, and flushes the slot's deferred reclamation
//! queues: the fence just proved the GPU is done with them.
//!
//! GPU handles are opaque integers handed out by the device; the asynchronous
//! GPU enters the model as explicit events (an acquire outcome, a fence
//! signal, a present outcome) reported by the platform layer or by a test
//! harness standing in for the GPU.

use vstd::prelude::*;

use crate::commands::CmdOp;
use crate::commands::Commands;
use crate::commands::Filter;
use crate::commands::LayoutChange;
use crate::commands::PushConstants;
use crate::commands::STAGE_COLOR_ATTACHMENT_OUTPUT;
use crate::error::Error;
use crate::gpu::GpuProperties;
use crate::memory::MemoryAccess;
use crate::memory::MemoryType;
use crate::memory::pick_memory_type;
use crate::memory::spec_memory_type_suits;
use crate::reclaim::BufferAlloc;
use crate::reclaim::ImageAlloc;
use crate::reclaim::ReclaimLedger;
use crate::spirv::decode_spirv;
use crate::spirv::spec_decode;
use crate::swapchain::Acquire;
use crate::swapchain::Swapchain;
use crate::sync::Fence;
use crate::sync::Semaphore;

verus! {

/// How many frames may be in flight at once: the CPU may prepare one frame
/// while the GPU still executes the previous one.
pub const FRAMES_IN_FLIGHT: usize = 2;

/// Per-frame statistics, reset at every frame boundary.
#[derive(Debug, Clone, Copy, PartialEq, Eq, Structural)]
pub struct Stats {
    pub drawn_indices: u32,
    pub shaders_used: u32,
    pub shader_rebinds: u32,
    pub materials_used: u32,
    pub material_rebinds: u32,
    pub draw_calls: u32,
}

impl Stats {
    /// All counters at zero.
    pub open spec fn spec_zero() -> Stats {
        Stats {
            drawn_indices: 0,
            shaders_used: 0,
            shader_rebinds: 0,
            materials_used: 0,
            material_rebinds: 0,
            draw_calls: 0,
        }
    }

    /// All counters at zero.
    pub fn zero() -> (r: Stats)
        ensures
            r == Stats::spec_zero(),
    {
        Stats {
            drawn_indices: 0,
            shaders_used: 0,
            shader_rebinds: 0,
            materials_used: 0,
            material_rebinds: 0,
            draw_calls: 0,
        }
    }
}

impl Default for Stats {
    fn default() -> (r: Stats)
        ensures
            r == Stats::spec_zero(),
    {
        Stats::zero()
    }
}

/// Incremented counter, saturating at the maximum.
pub open spec fn spec_sat_inc(x: u32) -> u32 {
    if x < u32::MAX {
        (x + 1) as u32
    } else {
        x
    }
}

/// Sum of two counters, saturating at the maximum.
pub open spec fn spec_sat_add(x: u32, y: u32) -> u32 {
    if x + y > u32::MAX {
        u32::MAX
    } else {
        (x + y) as u32
    }
}

fn sat_inc(x: u32) -> (r: u32)
    ensures
        r == spec_sat_inc(x),
{
    if x < u32::MAX {
        x + 1
    } else {
        x
    }
}

fn sat_add(x: u32, y: u32) -> (r: u32)
    ensures
        r == spec_sat_add(x, y),
{
    if x > u32::MAX - y {
        u32::MAX
    } else {
        x + y
    }
}

/// One in-flight frame slot: its two semaphores, its submission fence, its
/// command recording and its deferred reclamation queues.
#[derive(Debug, Clone)]
pub struct FrameSlot {
    /// Signaled by the presentation engine when the slot's image is ready.
    pub acquire_semaphore: Semaphore,
    /// Signaled by the queue when the slot's submission finishes rendering.
    pub release_semaphore: Semaphore,
    /// Signaled by the GPU when the slot's submission has fully executed.
    pub fence: Fence,
    pub commands: Commands,
    pub ledger: ReclaimLedger,
}

/// A slot whose command buffer is open has had its fence waited on and reset
/// and nothing submitted on it yet.
pub open spec fn spec_slot_wf(s: FrameSlot) -> bool {
    s.commands.recording ==> (!s.fence.signaled && !s.fence.pending)
}

/// What a completed frame rotation hands back to the caller.
#[derive(Debug, Clone)]
pub struct FrameStart {
    /// The slot now current.
    pub slot: usize,
    /// The present-image index the acquire delivered.
    pub image: u32,
    /// Whether the fence wait actually had to block: the slot's previous
    /// submission had not yet signaled at entry.
    pub waited: bool,
    /// The slot's drained reclamation queues: these handles are now provably
    /// unreferenced and must be freed by the platform layer.
    pub freed: ReclaimLedger,
}

/// The queue submission request derived by [`Device::submit`]: the platform
/// layer hands it to the graphics queue.
#[derive(Debug, Clone, Copy, PartialEq, Eq, Structural)]
pub struct SubmitInfo {
    pub slot: usize,
    /// Wait on the slot's acquire semaphore...
    pub wait_semaphore: u64,
    /// ...staged at color-attachment output...
    pub wait_stage: u32,
    /// ...and signal the slot's release semaphore (and its fence) on
    /// completion.
    pub signal_semaphore: u64,
}

/// The present request derived by [`Device::present`].
#[derive(Debug, Clone, Copy, PartialEq, Eq, Structural)]
pub struct PresentInfo {
    /// Wait on the current slot's release semaphore.
    pub wait_semaphore: u64,
    pub image: u32,
}

/// What the presentation engine reported for a present request.
#[derive(Debug, Clone, Copy, PartialEq, Eq, Structural)]
pub enum PresentOutcome {
    Success,
    /// The surface is stale; the caller should resize and retry.
    OutOfDate,
    /// Any other failure: fatal.
    Failure,
}

/// A validated shader module: a fresh handle with the corrected word stream.
#[derive(Debug, Clone, PartialEq, Eq)]
pub struct ShaderModule {
    pub handle: u64,
    pub words: Vec<u32>,
}

/// The central orchestrator of the frame protocol.
#[derive(Debug, Clone)]
pub struct Device {
    /// Queue family index chosen at GPU selection.
    pub queue_index: u32,
    /// Memory types of the chosen GPU.
    pub memory_types: Vec<MemoryType>,
    pub slot0: FrameSlot,
    pub slot1: FrameSlot,
    /// Index of the slot whose frame is being recorded. Starts at the last
    /// slot so that the first rotation lands on slot 0.
    pub current: usize,
    /// Fresh-handle counter; it starts past the semaphore handles, so every
    /// handle the device ever hands out is distinct.
    pub next_handle: u64,
    pub stats: Stats,
    /// Pipelines bound so far this frame, for the statistics counters.
    pub used_pipelines: Vec<u64>,
    /// Descriptor sets bound as materials so far this frame.
    pub used_descriptors: Vec<u64>,
}

impl Device {
    /// The slot at index `i` (0 or 1).
    pub open spec fn spec_slot(self, i: int) -> FrameSlot {
        if i == 0 {
            self.slot0
        } else {
            self.slot1
        }
    }

    /// The slot the next rotation lands on.
    pub open spec fn spec_next_slot(self) -> int {
        (self.current as int + 1) % (FRAMES_IN_FLIGHT as int)
    }

    /// Well-formedness: the slot index is in range, the memory type list is
    /// within the driver limit, and open recordings sit on clean fences.
    pub open spec fn wf(self) -> bool {
        &&& self.current < FRAMES_IN_FLIGHT
        &&& self.memory_types@.len() <= 32
        &&& spec_slot_wf(self.slot0)
        &&& spec_slot_wf(self.slot1)
    }

    /// Whether the current slot has an open command recording.
    pub open spec fn spec_recording(self) -> bool {
        self.spec_slot(self.current as int).commands.recording
    }

    /// Open the logical device on the chosen GPU.
    ///
    /// All frame slots are created here: fences start signaled (so the first
    /// rotation does not block), recordings closed, reclamation queues empty,
    /// and the four semaphores pairwise distinct.
    pub fn new(gpu: &GpuProperties) -> (r: Device)
        requires
            gpu.queue_index is Some,
            gpu.memory_types@.len() <= 32,
        ensures
            r.wf(),
            r.queue_index == gpu.queue_index->0,
            r.memory_types@ == gpu.memory_types@,
            r.current == FRAMES_IN_FLIGHT - 1,
            r.next_handle == 4,
            r.stats == Stats::spec_zero(),
            r.used_pipelines@.len() == 0,
            r.used_descriptors@.len() == 0,
            forall|i: int|
                0 <= i < FRAMES_IN_FLIGHT ==> {
                    &&& r.spec_slot(i).fence.signaled
                    &&& !r.spec_slot(i).fence.pending
                    &&& !r.spec_slot(i).commands.recording
                    &&& r.spec_slot(i).commands.recorded@.len() == 0
                    &&& r.spec_slot(i).ledger.spec_is_empty()
                },
            r.slot0.acquire_semaphore.handle != r.slot0.release_semaphore.handle,
            r.slot0.acquire_semaphore.handle != r.slot1.acquire_semaphore.handle,
            r.slot0.acquire_semaphore.handle != r.slot1.release_semaphore.handle,
            r.slot0.release_semaphore.handle != r.slot1.acquire_semaphore.handle,
            r.slot0.release_semaphore.handle != r.slot1.release_semaphore.handle,
            r.slot1.acquire_semaphore.handle != r.slot1.release_semaphore.handle,
    {
        let queue_index = match gpu.queue_index {
            Some(i) => i,
            None => {
                assert(false);
                0
            },
        };
        let mut memory_types: Vec<MemoryType> = Vec::new();
        let mut i: usize = 0;
        while i < gpu.memory_types.len()
            invariant
                i <= gpu.memory_types@.len(),
                memory_types@ == gpu.memory_types@.take(i as int),
            decreases gpu.memory_types@.len() - i,
        {
            memory_types.push(gpu.memory_types[i]);
            assert(memory_types@ =~= gpu.memory_types@.take(i + 1));
            i = i + 1;
        }
        assert(memory_types@ =~= gpu.memory_types@);

        let slot0 = FrameSlot {
            acquire_semaphore: Semaphore { handle: 0 },
            release_semaphore: Semaphore { handle: 1 },
            fence: Fence::new(true),
            commands: Commands::new(),
            ledger: ReclaimLedger::new(),
        };
        let slot1 = FrameSlot {
            acquire_semaphore: Semaphore { handle: 2 },
            release_semaphore: Semaphore { handle: 3 },
            fence: Fence::new(true),
            commands: Commands::new(),
            ledger: ReclaimLedger::new(),
        };
        Device {
            queue_index,
            memory_types,
            slot0,
            slot1,
            current: FRAMES_IN_FLIGHT - 1,
            next_handle: 4,
            stats: Stats::zero(),
            used_pipelines: Vec::new(),
            used_descriptors: Vec::new(),
        }
    }

    /// Index of the slot whose frame is being recorded.
    pub fn current_frame(&self) -> (r: usize)
        ensures
            r == self.current,
    {
        self.current
    }

    /// The slot the next call to [`Device::next_frame`] will land on; the
    /// platform layer waits on that slot's real fence before rotating.
    pub fn upcoming_slot(&self) -> (r: usize)
        requires
            self.wf(),
        ensures
            r == self.spec_next_slot(),
    {
        (self.current + 1) % FRAMES_IN_FLIGHT
    }

    /// This frame's statistics so far.
    pub fn stats(&self) -> (r: Stats)
        ensures
            r == self.stats,
    {
        self.stats
    }

    /// Record the GPU's signal on a slot's fence: the submission issued on
    /// that slot has fully executed. Driven by the platform layer or by a
    /// test harness standing in for the GPU.
    pub fn signal_fence(&mut self, slot: usize)
        requires
            old(self).wf(),
            slot < FRAMES_IN_FLIGHT,
            old(self).spec_slot(slot as int).fence.pending,
        ensures
            final(self).wf(),
            final(self).spec_slot(slot as int).fence.signaled,
            !final(self).spec_slot(slot as int).fence.pending,
            final(self).spec_slot(slot as int) == (FrameSlot {
                fence: final(self).spec_slot(slot as int).fence,
                ..old(self).spec_slot(slot as int)
            }),
            final(self).spec_slot(1 - slot as int) == old(self).spec_slot(1 - slot as int),
            *final(self) == (Device {
                slot0: final(self).slot0,
                slot1: final(self).slot1,
                ..*old(self)
            }),
    {
        if slot == 0 {
            self.slot0.fence.signal();
        } else {
            self.slot1.fence.signal();
        }
    }

    /// Advance to the next frame slot and open its recording.
    ///
    /// `acquired` is what the presentation engine reported for the acquire
    /// request on the upcoming slot's acquire semaphore. A stale surface
    /// surfaces as the recoverable [`Error::SurfaceOutOfDate`] and changes
    /// nothing; an in-range image index commits the rotation described by
    /// [`spec_rotated`]: the new slot's fence is waited on and reset, its
    /// command buffer recreated and begun, its reclamation queues flushed
    /// into the returned [`FrameStart`], and the statistics counters reset.
    pub fn next_frame(&mut self, swapchain: &mut Swapchain, acquired: Acquire) -> (r: Result<
        FrameStart,
        Error,
    >)
        requires
            old(self).wf(),
        ensures
            final(self).wf(),
            match acquired {
                Acquire::OutOfDate => {
                    &&& r == Err::<FrameStart, Error>(Error::SurfaceOutOfDate)
                    &&& *final(self) == *old(self)
                    &&& *final(swapchain) == *old(swapchain)
                },
                Acquire::Image { index } => if index < old(swapchain).image_count {
                    &&& r is Ok
                    &&& spec_rotated(*old(self), *final(self), r->Ok_0)
                    &&& r->Ok_0.image == index
                    &&& *final(swapchain) == (Swapchain { current_image: index, ..*old(swapchain) })
                } else {
                    &&& r == Err::<FrameStart, Error>(Error::GpuError)
                    &&& *final(self) == *old(self)
                    &&& *final(swapchain) == *old(swapchain)
                },
            },
    {
        let index = match swapchain.next(acquired) {
            Ok(i) => i,
            Err(e) => {
                return Err(e);
            },
        };
        let next = (self.current + 1) % FRAMES_IN_FLIGHT;
        let (waited, freed) = if next == 0 {
            rotate_slot(&mut self.slot0)
        } else {
            rotate_slot(&mut self.slot1)
        };
        self.current = next;
        self.stats = Stats::zero();
        self.used_pipelines = Vec::new();
        self.used_descriptors = Vec::new();
        Ok(FrameStart { slot: next, image: index, waited, freed })
    }

    /// Close the current slot's recording and derive its queue submission:
    /// wait on the slot's acquire semaphore at color-attachment output,
    /// signal its release semaphore, and mark its fence pending — the GPU now
    /// owes that fence a signal.
    pub fn submit(&mut self) -> (r: SubmitInfo)
        requires
            old(self).wf(),
            old(self).spec_recording(),
        ensures
            final(self).wf(),
            spec_submitted(*old(self), *final(self), r),
    {
        let (wait_semaphore, signal_semaphore) = if self.current == 0 {
            submit_slot(&mut self.slot0)
        } else {
            submit_slot(&mut self.slot1)
        };
        SubmitInfo {
            slot: self.current,
            wait_semaphore,
            wait_stage: STAGE_COLOR_ATTACHMENT_OUTPUT,
            signal_semaphore,
        }
    }

    /// Derive the present request for the current slot and classify the
    /// reported outcome: a stale surface is the recoverable, resize-triggering
    /// [`Error::SurfaceOutOfDate`]; any other failure is fatal.
    pub fn present(&self, swapchain: &Swapchain, outcome: PresentOutcome) -> (r: Result<
        PresentInfo,
        Error,
    >)
        requires
            self.wf(),
        ensures
            match outcome {
                PresentOutcome::Success => r == Ok::<PresentInfo, Error>(
                    PresentInfo {
                        wait_semaphore: self.spec_slot(
                            self.current as int,
                        ).release_semaphore.handle,
                        image: swapchain.current_image,
                    },
                ),
                PresentOutcome::OutOfDate => r == Err::<PresentInfo, Error>(
                    Error::SurfaceOutOfDate,
                ),
                PresentOutcome::Failure => r == Err::<PresentInfo, Error>(Error::GpuError),
            },
    {
        let wait_semaphore = if self.current == 0 {
            self.slot0.release_semaphore.handle
        } else {
            self.slot1.release_semaphore.handle
        };
        match outcome {
            PresentOutcome::Success => Ok(
                PresentInfo { wait_semaphore, image: swapchain.current() },
            ),
            PresentOutcome::OutOfDate => Err(Error::SurfaceOutOfDate),
            PresentOutcome::Failure => Err(Error::GpuError),
        }
    }

    /// Synchronous one-off submission: submit a closed recording with no
    /// semaphores and block until the whole device is idle. Device idleness
    /// retires every pending fence. Intentionally heavyweight; never on the
    /// per-frame hot path.
    pub fn submit_and_wait(&mut self, commands: &Commands)
        requires
            old(self).wf(),
            !commands.recording,
        ensures
            final(self).wf(),
            spec_idled(*old(self), *final(self)),
    {
        retire_fence(&mut self.slot0.fence);
        retire_fence(&mut self.slot1.fence);
    }

    /// Record-and-run convenience for one-off transfer work: takes a closed
    /// throwaway recording, submits it and waits for full device idleness.
    pub fn do_commands(&mut self, commands: &Commands)
        requires
            old(self).wf(),
            !commands.recording,
        ensures
            final(self).wf(),
            spec_idled(*old(self), *final(self)),
    {
        self.submit_and_wait(commands);
    }

    /// Block until the device is idle: every pending fence retires.
    pub fn wait_for_idle(&mut self)
        requires
            old(self).wf(),
        ensures
            final(self).wf(),
            spec_idled(*old(self), *final(self)),
    {
        retire_fence(&mut self.slot0.fence);
        retire_fence(&mut self.slot1.fence);
    }

    /// Resize the present surface: wait until the device is idle (no queued
    /// work may reference the old image chain), then rebuild the chain from
    /// the requeried surface capabilities.
    pub fn resize(
        &mut self,
        swapchain: &mut Swapchain,
        caps: crate::swapchain::SurfaceCapabilities,
        width: u32,
        height: u32,
        vsync: crate::gpu::VSync,
    )
        requires
            old(self).wf(),
            caps.spec_wf(),
        ensures
            final(self).wf(),
            spec_idled(*old(self), *final(self)),
            final(swapchain).spec_configured(caps, width, height, vsync),
    {
        self.wait_for_idle();
        swapchain.recreate(caps, width, height, vsync);
    }

    /// Tear the device down after a final idle wait: every handle still
    /// queued in any slot's reclamation ledger is handed back for the
    /// platform layer to free, slot by slot.
    pub fn destroy(self) -> (r: ReclaimLedger)
        ensures
            r.pipelines@ == self.slot0.ledger.pipelines@ + self.slot1.ledger.pipelines@,
            r.buffers@ == self.slot0.ledger.buffers@ + self.slot1.ledger.buffers@,
            r.images@ == self.slot0.ledger.images@ + self.slot1.ledger.images@,
    {
        let mut out = self.slot0.ledger;
        let mut rest = self.slot1.ledger;
        out.pipelines.append(&mut rest.pipelines);
        out.buffers.append(&mut rest.buffers);
        out.images.append(&mut rest.images);
        out
    }
}

/// Wait on a slot's fence, reset it, recreate and begin its command buffer,
/// and drain its reclamation queues.
fn rotate_slot(slot: &mut FrameSlot) -> (r: (bool, ReclaimLedger))
    ensures
        r.0 == !old(slot).fence.signaled,
        r.1.pipelines@ == old(slot).ledger.pipelines@,
        r.1.buffers@ == old(slot).ledger.buffers@,
        r.1.images@ == old(slot).ledger.images@,
        !final(slot).fence.signaled,
        !final(slot).fence.pending,
        final(slot).commands.recording,
        final(slot).commands.recorded@.len() == 0,
        final(slot).ledger.spec_is_empty(),
        final(slot).acquire_semaphore == old(slot).acquire_semaphore,
        final(slot).release_semaphore == old(slot).release_semaphore,
{
    let waited = slot.fence.wait();
    slot.fence.reset();
    slot.commands = Commands::new();
    slot.commands.begin();
    let freed = slot.ledger.flush();
    (waited, freed)
}

/// Close a slot's recording and mark its fence pending; hand back its
/// acquire and release semaphores for the submission request.
fn submit_slot(slot: &mut FrameSlot) -> (r: (u64, u64))
    requires
        old(slot).commands.recording,
        spec_slot_wf(*old(slot)),
    ensures
        !final(slot).commands.recording,
        final(slot).commands.recorded@ == old(slot).commands.recorded@,
        final(slot).fence.pending,
        !final(slot).fence.signaled,
        final(slot).ledger == old(slot).ledger,
        final(slot).acquire_semaphore == old(slot).acquire_semaphore,
        final(slot).release_semaphore == old(slot).release_semaphore,
        r.0 == old(slot).acquire_semaphore.handle,
        r.1 == old(slot).release_semaphore.handle,
{
    slot.commands.end();
    slot.fence.mark_pending();
    (slot.acquire_semaphore.handle, slot.release_semaphore.handle)
}

/// Retire a fence if a submission is pending on it: device idleness implies
/// the submission finished and the fence signaled.
fn retire_fence(fence: &mut Fence)
    ensures
        final(fence).signaled == (old(fence).signaled || old(fence).pending),
        !final(fence).pending,
{
    if fence.pending {
        fence.signal();
    }
}

/// The successful frame rotation: `post` and `start` against the device state
/// `pre` before the call.
pub open spec fn spec_rotated(pre: Device, post: Device, start: FrameStart) -> bool {
    let s = pre.spec_next_slot();
    let pres = pre.spec_slot(s);
    let posts = post.spec_slot(s);
    &&& post.current == s
    &&& start.slot == s
    // the fence wait blocked exactly when the slot's previous submission had
    // not yet signaled
    &&& start.waited == !pres.fence.signaled
    // the slot's deferred resources are handed back, exactly once
    &&& start.freed.pipelines@ == pres.ledger.pipelines@
    &&& start.freed.buffers@ == pres.ledger.buffers@
    &&& start.freed.images@ == pres.ledger.images@
    &&& posts.ledger.spec_is_empty()
    // fence waited on and reset
    &&& !posts.fence.signaled
    &&& !posts.fence.pending
    // fresh recording opened
    &&& posts.commands.recording
    &&& posts.commands.recorded@.len() == 0
    &&& posts.acquire_semaphore == pres.acquire_semaphore
    &&& posts.release_semaphore == pres.release_semaphore
    // the other slot is untouched
    &&& post.spec_slot(1 - s) == pre.spec_slot(1 - s)
    &&& post.queue_index == pre.queue_index
    &&& post.memory_types@ == pre.memory_types@
    &&& post.next_handle == pre.next_handle
    // per-frame statistics reset
    &&& post.stats == Stats::spec_zero()
    &&& post.used_pipelines@.len() == 0
    &&& post.used_descriptors@.len() == 0
}

/// The successful submission: `post` and the derived request `r` against the
/// device state `pre` before the call.
pub open spec fn spec_submitted(pre: Device, post: Device, r: SubmitInfo) -> bool {
    let c = pre.current as int;
    let pres = pre.spec_slot(c);
    let posts = post.spec_slot(c);
    &&& post.current == pre.current
    &&& !posts.commands.recording
    &&& posts.commands.recorded@ == pres.commands.recorded@
    &&& posts.fence.pending
    &&& !posts.fence.signaled
    &&& posts.ledger == pres.ledger
    &&& posts.acquire_semaphore == pres.acquire_semaphore
    &&& posts.release_semaphore == pres.release_semaphore
    &&& post.spec_slot(1 - c) == pre.spec_slot(1 - c)
    &&& post.queue_index == pre.queue_index
    &&& post.memory_types@ == pre.memory_types@
    &&& post.next_handle == pre.next_handle
    &&& post.stats == pre.stats
    &&& post.used_pipelines@ == pre.used_pipelines@
    &&& post.used_descriptors@ == pre.used_descriptors@
    &&& r.slot == c
    &&& r.wait_semaphore == pres.acquire_semaphore.handle
    &&& r.signal_semaphore == pres.release_semaphore.handle
    &&& r.wait_stage == STAGE_COLOR_ATTACHMENT_OUTPUT
}

impl Device {
    /// Select a memory type of this GPU for the given requirement bitmask
    /// and access pattern.
    pub fn find_memory_type(&self, type_bits: u32, access: MemoryAccess) -> (r: Option<u32>)
        requires
            self.wf(),
        ensures
            match r {
                Some(i) => spec_memory_type_suits(
                    self.memory_types@,
                    type_bits,
                    access.spec_flags(),
                    i,
                ) && (forall|j: u32|
                    j < i ==> !spec_memory_type_suits(
                        self.memory_types@,
                        type_bits,
                        access.spec_flags(),
                        j,
                    )),
                None => forall|j: u32|
                    !spec_memory_type_suits(self.memory_types@, type_bits, access.spec_flags(), j),
            },
    {
        pick_memory_type(&self.memory_types, type_bits, access.flags())
    }

    /// Create a buffer of the requested size and bind fresh backing memory
    /// of a type satisfying both the driver-reported requirement bitmask and
    /// the access pattern.
    ///
    /// On failure nothing is handed out and no state changes: no partial
    /// allocation leaks.
    pub fn allocate_buffer(&mut self, size: u64, type_bits: u32, access: MemoryAccess) -> (r:
        Result<BufferAlloc, Error>)
        requires
            old(self).wf(),
            old(self).next_handle <= u64::MAX - 2,
        ensures
            final(self).wf(),
            match r {
                Ok(a) => {
                    &&& exists|i: u32|
                        spec_memory_type_suits(
                            old(self).memory_types@,
                            type_bits,
                            access.spec_flags(),
                            i,
                        )
                    &&& a.buffer == old(self).next_handle
                    &&& a.memory == old(self).next_handle + 1
                    &&& *final(self) == (Device {
                        next_handle: (old(self).next_handle + 2) as u64,
                        ..*old(self)
                    })
                },
                Err(e) => {
                    &&& e == Error::UnsupportedMemoryType
                    &&& forall|i: u32|
                        !spec_memory_type_suits(
                            old(self).memory_types@,
                            type_bits,
                            access.spec_flags(),
                            i,
                        )
                    &&& *final(self) == *old(self)
                },
            },
    {
        let _ = size;
        match self.find_memory_type(type_bits, access) {
            Some(i) => {
                let _ = i;
                let buffer = self.next_handle;
                self.next_handle = self.next_handle + 2;
                Ok(BufferAlloc { buffer, memory: buffer + 1 })
            },
            None => Err(Error::UnsupportedMemoryType),
        }
    }

    /// Create an image and bind fresh backing memory; images always require
    /// device-local memory.
    pub fn allocate_image(&mut self, type_bits: u32) -> (r: Result<ImageAlloc, Error>)
        requires
            old(self).wf(),
            old(self).next_handle <= u64::MAX - 2,
        ensures
            final(self).wf(),
            match r {
                Ok(a) => {
                    &&& exists|i: u32|
                        spec_memory_type_suits(
                            old(self).memory_types@,
                            type_bits,
                            MemoryAccess::Gpu.spec_flags(),
                            i,
                        )
                    &&& a.image == old(self).next_handle
                    &&& a.memory == old(self).next_handle + 1
                    &&& *final(self) == (Device {
                        next_handle: (old(self).next_handle + 2) as u64,
                        ..*old(self)
                    })
                },
                Err(e) => {
                    &&& e == Error::UnsupportedMemoryType
                    &&& forall|i: u32|
                        !spec_memory_type_suits(
                            old(self).memory_types@,
                            type_bits,
                            MemoryAccess::Gpu.spec_flags(),
                            i,
                        )
                    &&& *final(self) == *old(self)
                },
            },
    {
        match self.find_memory_type(type_bits, MemoryAccess::Gpu) {
            Some(i) => {
                let _ = i;
                let image = self.next_handle;
                self.next_handle = self.next_handle + 2;
                Ok(ImageAlloc { image, memory: image + 1 })
            },
            None => Err(Error::UnsupportedMemoryType),
        }
    }

    /// Register a compiled graphics pipeline under a fresh handle.
    pub fn create_pipeline(&mut self) -> (r: u64)
        requires
            old(self).wf(),
            old(self).next_handle < u64::MAX,
        ensures
            final(self).wf(),
            r == old(self).next_handle,
            *final(self) == (Device {
                next_handle: (old(self).next_handle + 1) as u64,
                ..*old(self)
            }),
    {
        let handle = self.next_handle;
        self.next_handle = self.next_handle + 1;
        handle
    }

    /// Validate a shader binary and register it under a fresh handle.
    pub fn create_shader_module(&mut self, source: &[u8]) -> (r: Result<ShaderModule, Error>)
        requires
            old(self).wf(),
            old(self).next_handle < u64::MAX,
        ensures
            final(self).wf(),
            match r {
                Ok(m) => {
                    &&& spec_decode(source@) == Some(m.words@)
                    &&& m.handle == old(self).next_handle
                    &&& *final(self) == (Device {
                        next_handle: (old(self).next_handle + 1) as u64,
                        ..*old(self)
                    })
                },
                Err(e) => {
                    &&& e == Error::InvalidSpirv
                    &&& spec_decode(source@) is None
                    &&& *final(self) == *old(self)
                },
            },
    {
        match decode_spirv(source) {
            Ok(words) => {
                let handle = self.next_handle;
                self.next_handle = self.next_handle + 1;
                Ok(ShaderModule { handle, words })
            },
            Err(e) => Err(e),
        }
    }

    /// Defer freeing a buffer: queue it on the current frame slot; it is
    /// physically freed only when this slot's fence next proves the GPU done.
    pub fn free_buffer(&mut self, alloc: BufferAlloc)
        requires
            old(self).wf(),
        ensures
            final(self).wf(),
            spec_deferred(*old(self), *final(self)),
            final(self).spec_slot(old(self).current as int).ledger.buffers@ == old(self).spec_slot(
                old(self).current as int,
            ).ledger.buffers@.push(alloc),
            final(self).spec_slot(old(self).current as int).ledger.pipelines@ == old(
                self,
            ).spec_slot(old(self).current as int).ledger.pipelines@,
            final(self).spec_slot(old(self).current as int).ledger.images@ == old(self).spec_slot(
                old(self).current as int,
            ).ledger.images@,
    {
        if self.current == 0 {
            self.slot0.ledger.push_buffer(alloc);
        } else {
            self.slot1.ledger.push_buffer(alloc);
        }
    }

    /// Defer freeing an image, under the same frame-slot discipline as
    /// buffers: every GPU-memory-backed handle is reclaimed deferred, never
    /// synchronously.
    pub fn free_image(&mut self, alloc: ImageAlloc)
        requires
            old(self).wf(),
        ensures
            final(self).wf(),
            spec_deferred(*old(self), *final(self)),
            final(self).spec_slot(old(self).current as int).ledger.images@ == old(self).spec_slot(
                old(self).current as int,
            ).ledger.images@.push(alloc),
            final(self).spec_slot(old(self).current as int).ledger.pipelines@ == old(
                self,
            ).spec_slot(old(self).current as int).ledger.pipelines@,
            final(self).spec_slot(old(self).current as int).ledger.buffers@ == old(self).spec_slot(
                old(self).current as int,
            ).ledger.buffers@,
    {
        if self.current == 0 {
            self.slot0.ledger.push_image(alloc);
        } else {
            self.slot1.ledger.push_image(alloc);
        }
    }

    /// Defer destroying a pipeline: queue it on the current frame slot.
    pub fn destroy_pipeline(&mut self, pipeline: u64)
        requires
            old(self).wf(),
        ensures
            final(self).wf(),
            spec_deferred(*old(self), *final(self)),
            final(self).spec_slot(old(self).current as int).ledger.pipelines@ == old(
                self,
            ).spec_slot(old(self).current as int).ledger.pipelines@.push(pipeline),
            final(self).spec_slot(old(self).current as int).ledger.buffers@ == old(self).spec_slot(
                old(self).current as int,
            ).ledger.buffers@,
            final(self).spec_slot(old(self).current as int).ledger.images@ == old(self).spec_slot(
                old(self).current as int,
            ).ledger.images@,
    {
        if self.current == 0 {
            self.slot0.ledger.push_pipeline(pipeline);
        } else {
            self.slot1.ledger.push_pipeline(pipeline);
        }
    }
}

impl Device {
    /// Record one operation into the current slot's open recording.
    fn record_op(&mut self, op: CmdOp)
        requires
            old(self).wf(),
            old(self).spec_recording(),
        ensures
            final(self).wf(),
            spec_recorded(*old(self), *final(self), seq![op]),
            spec_counters_kept(*old(self), *final(self)),
    {
        if self.current == 0 {
            self.slot0.commands.record(op);
        } else {
            self.slot1.commands.record(op);
        }
        proof {
            let c = old(self).current as int;
            assert(final(self).spec_slot(c).commands.recorded@ =~= old(self).spec_slot(
                c,
            ).commands.recorded@ + seq![op]);
        }
    }

    /// Open a render pass on a framebuffer; the clear color carries the raw
    /// bit patterns of its four channels.
    pub fn cmd_begin_render_pass(&mut self, framebuffer: u64, clear: [u32; 4])
        requires
            old(self).wf(),
            old(self).spec_recording(),
        ensures
            final(self).wf(),
            spec_recorded(
                *old(self),
                *final(self),
                seq![CmdOp::BeginRenderPass { framebuffer, clear }],
            ),
            spec_counters_kept(*old(self), *final(self)),
    {
        self.record_op(CmdOp::BeginRenderPass { framebuffer, clear });
    }

    /// Close the open render pass.
    pub fn cmd_end_render_pass(&mut self)
        requires
            old(self).wf(),
            old(self).spec_recording(),
        ensures
            final(self).wf(),
            spec_recorded(*old(self), *final(self), seq![CmdOp::EndRenderPass]),
            spec_counters_kept(*old(self), *final(self)),
    {
        self.record_op(CmdOp::EndRenderPass);
    }

    /// Bind a shader's pipeline, counting first-time binds and rebinds.
    pub fn cmd_bind_shader(&mut self, pipeline: u64)
        requires
            old(self).wf(),
            old(self).spec_recording(),
        ensures
            final(self).wf(),
            spec_recorded(*old(self), *final(self), seq![CmdOp::BindPipeline { pipeline }]),
            final(self).used_descriptors@ == old(self).used_descriptors@,
            old(self).used_pipelines@.contains(pipeline) ==> final(self).used_pipelines@ == old(
                self,
            ).used_pipelines@ && final(self).stats == (Stats {
                shader_rebinds: spec_sat_inc(old(self).stats.shader_rebinds),
                ..old(self).stats
            }),
            !old(self).used_pipelines@.contains(pipeline) ==> final(self).used_pipelines@ == old(
                self,
            ).used_pipelines@.push(pipeline) && final(self).stats == (Stats {
                shaders_used: spec_sat_inc(old(self).stats.shaders_used),
                ..old(self).stats
            }),
    {
        self.record_op(CmdOp::BindPipeline { pipeline });
        if contains_u64(&self.used_pipelines, pipeline) {
            self.stats.shader_rebinds = sat_inc(self.stats.shader_rebinds);
        } else {
            self.used_pipelines.push(pipeline);
            self.stats.shaders_used = sat_inc(self.stats.shaders_used);
        }
    }

    /// Bind a descriptor set at a set index (a uniform bind; not counted as
    /// a material).
    pub fn cmd_bind_descriptor(&mut self, set_index: u32, set: u64)
        requires
            old(self).wf(),
            old(self).spec_recording(),
        ensures
            final(self).wf(),
            spec_recorded(*old(self), *final(self), seq![CmdOp::BindDescriptor { set_index, set }]),
            spec_counters_kept(*old(self), *final(self)),
    {
        self.record_op(CmdOp::BindDescriptor { set_index, set });
    }

    /// Bind a material's descriptor set, counting first-time binds and
    /// rebinds.
    pub fn cmd_bind_material(&mut self, set_index: u32, set: u64)
        requires
            old(self).wf(),
            old(self).spec_recording(),
        ensures
            final(self).wf(),
            spec_recorded(*old(self), *final(self), seq![CmdOp::BindDescriptor { set_index, set }]),
            final(self).used_pipelines@ == old(self).used_pipelines@,
            old(self).used_descriptors@.contains(set) ==> final(self).used_descriptors@ == old(
                self,
            ).used_descriptors@ && final(self).stats == (Stats {
                material_rebinds: spec_sat_inc(old(self).stats.material_rebinds),
                ..old(self).stats
            }),
            !old(self).used_descriptors@.contains(set) ==> final(self).used_descriptors@ == old(
                self,
            ).used_descriptors@.push(set) && final(self).stats == (Stats {
                materials_used: spec_sat_inc(old(self).stats.materials_used),
                ..old(self).stats
            }),
    {
        self.record_op(CmdOp::BindDescriptor { set_index, set });
        if contains_u64(&self.used_descriptors, set) {
            self.stats.material_rebinds = sat_inc(self.stats.material_rebinds);
        } else {
            self.used_descriptors.push(set);
            self.stats.materials_used = sat_inc(self.stats.materials_used);
        }
    }

    /// Bind a vertex buffer.
    pub fn cmd_bind_vertex_buffer(&mut self, buffer: u64)
        requires
            old(self).wf(),
            old(self).spec_recording(),
        ensures
            final(self).wf(),
            spec_recorded(*old(self), *final(self), seq![CmdOp::BindVertexBuffer { buffer }]),
            spec_counters_kept(*old(self), *final(self)),
    {
        self.record_op(CmdOp::BindVertexBuffer { buffer });
    }

    /// Bind an index buffer.
    pub fn cmd_bind_index_buffer(&mut self, buffer: u64)
        requires
            old(self).wf(),
            old(self).spec_recording(),
        ensures
            final(self).wf(),
            spec_recorded(*old(self), *final(self), seq![CmdOp::BindIndexBuffer { buffer }]),
            spec_counters_kept(*old(self), *final(self)),
    {
        self.record_op(CmdOp::BindIndexBuffer { buffer });
    }

    /// Bind a mesh: its index buffer, then its vertex buffer.
    pub fn cmd_bind_mesh(&mut self, index_buffer: u64, vertex_buffer: u64)
        requires
            old(self).wf(),
            old(self).spec_recording(),
        ensures
            final(self).wf(),
            spec_recorded(
                *old(self),
                *final(self),
                seq![
                    CmdOp::BindIndexBuffer { buffer: index_buffer },
                    CmdOp::BindVertexBuffer { buffer: vertex_buffer },
                ],
            ),
            spec_counters_kept(*old(self), *final(self)),
    {
        self.record_op(CmdOp::BindIndexBuffer { buffer: index_buffer });
        self.record_op(CmdOp::BindVertexBuffer { buffer: vertex_buffer });
        proof {
            let c = old(self).current as int;
            assert(final(self).spec_slot(c).commands.recorded@ =~= old(self).spec_slot(
                c,
            ).commands.recorded@ + seq![
                CmdOp::BindIndexBuffer { buffer: index_buffer },
                CmdOp::BindVertexBuffer { buffer: vertex_buffer },
            ]);
        }
    }

    /// Push the fixed-size constant block for the next draw.
    pub fn cmd_push_constants(&mut self, constants: PushConstants)
        requires
            old(self).wf(),
            old(self).spec_recording(),
        ensures
            final(self).wf(),
            spec_recorded(*old(self), *final(self), seq![CmdOp::PushConstants { constants }]),
            spec_counters_kept(*old(self), *final(self)),
    {
        self.record_op(CmdOp::PushConstants { constants });
    }

    /// Record an indexed draw, counting the call and the indices drawn.
    pub fn cmd_draw(&mut self, count: u32)
        requires
            old(self).wf(),
            old(self).spec_recording(),
        ensures
            final(self).wf(),
            spec_recorded(*old(self), *final(self), seq![CmdOp::DrawIndexed { count }]),
            final(self).used_pipelines@ == old(self).used_pipelines@,
            final(self).used_descriptors@ == old(self).used_descriptors@,
            final(self).stats == (Stats {
                draw_calls: spec_sat_inc(old(self).stats.draw_calls),
                drawn_indices: spec_sat_add(old(self).stats.drawn_indices, count),
                ..old(self).stats
            }),
    {
        self.record_op(CmdOp::DrawIndexed { count });
        self.stats.draw_calls = sat_inc(self.stats.draw_calls);
        self.stats.drawn_indices = sat_add(self.stats.drawn_indices, count);
    }

    /// Copy between buffers.
    pub fn cmd_copy_buffer(&mut self, src: u64, dst: u64, size: u64)
        requires
            old(self).wf(),
            old(self).spec_recording(),
        ensures
            final(self).wf(),
            spec_recorded(*old(self), *final(self), seq![CmdOp::CopyBuffer { src, dst, size }]),
            spec_counters_kept(*old(self), *final(self)),
    {
        self.record_op(CmdOp::CopyBuffer { src, dst, size });
    }

    /// Copy a buffer into an image.
    pub fn cmd_copy_buffer_to_image(&mut self, src: u64, dst: u64, width: u32, height: u32)
        requires
            old(self).wf(),
            old(self).spec_recording(),
        ensures
            final(self).wf(),
            spec_recorded(
                *old(self),
                *final(self),
                seq![CmdOp::CopyBufferToImage { src, dst, width, height }],
            ),
            spec_counters_kept(*old(self), *final(self)),
    {
        self.record_op(CmdOp::CopyBufferToImage { src, dst, width, height });
    }

    /// Set the viewport and the scissor to the given extent.
    pub fn cmd_set_view(&mut self, width: u32, height: u32)
        requires
            old(self).wf(),
            old(self).spec_recording(),
        ensures
            final(self).wf(),
            spec_recorded(
                *old(self),
                *final(self),
                seq![CmdOp::SetViewport { width, height }, CmdOp::SetScissor { width, height }],
            ),
            spec_counters_kept(*old(self), *final(self)),
    {
        self.record_op(CmdOp::SetViewport { width, height });
        self.record_op(CmdOp::SetScissor { width, height });
        proof {
            let c = old(self).current as int;
            assert(final(self).spec_slot(c).commands.recorded@ =~= old(self).spec_slot(
                c,
            ).commands.recorded@ + seq![
                CmdOp::SetViewport { width, height },
                CmdOp::SetScissor { width, height },
            ]);
        }
    }

    /// Set the rasterizer line width; the value carries the raw bit pattern
    /// of the requested width.
    pub fn cmd_set_line_width(&mut self, width: u32)
        requires
            old(self).wf(),
            old(self).spec_recording(),
        ensures
            final(self).wf(),
            spec_recorded(*old(self), *final(self), seq![CmdOp::SetLineWidth { width }]),
            spec_counters_kept(*old(self), *final(self)),
    {
        self.record_op(CmdOp::SetLineWidth { width });
    }

    /// Blit between images with the given filter.
    pub fn cmd_blit_image(&mut self, src: u64, dst: u64, filter: Filter)
        requires
            old(self).wf(),
            old(self).spec_recording(),
        ensures
            final(self).wf(),
            spec_recorded(*old(self), *final(self), seq![CmdOp::BlitImage { src, dst, filter }]),
            spec_counters_kept(*old(self), *final(self)),
    {
        self.record_op(CmdOp::BlitImage { src, dst, filter });
    }

    /// Record an image barrier for a layout transition; the access flags and
    /// pipeline stages are derived from the old and new layout.
    pub fn cmd_change_image_layout(&mut self, image: u64, change: LayoutChange)
        requires
            old(self).wf(),
            old(self).spec_recording(),
        ensures
            final(self).wf(),
            spec_recorded(
                *old(self),
                *final(self),
                seq![
                    CmdOp::ImageBarrier {
                        image,
                        change,
                        src_access: change.old_layout.spec_access_flag(),
                        dst_access: change.new_layout.spec_access_flag(),
                        src_stage: change.old_layout.spec_stage_flag(),
                        dst_stage: change.new_layout.spec_stage_flag(),
                    },
                ],
            ),
            spec_counters_kept(*old(self), *final(self)),
    {
        let src_access = change.old_layout.access_flag();
        let dst_access = change.new_layout.access_flag();
        let src_stage = change.old_layout.stage_flag();
        let dst_stage = change.new_layout.stage_flag();
        self.record_op(
            CmdOp::ImageBarrier { image, change, src_access, dst_access, src_stage, dst_stage },
        );
    }
}

/// Whether a vector of handles holds the given handle.
fn contains_u64(v: &Vec<u64>, x: u64) -> (r: bool)
    ensures
        r == v@.contains(x),
{
    let mut i: usize = 0;
    while i < v.len()
        invariant
            i <= v@.len(),
            forall|j: int| 0 <= j < i ==> v@[j] != x,
        decreases v@.len() - i,
    {
        if v[i] == x {
            return true;
        }
        i = i + 1;
    }
    false
}

/// Operations appended to the current slot's open recording; nothing else of
/// the slots changed, and of the device only the statistics counters may
/// have moved besides.
pub open spec fn spec_recorded(pre: Device, post: Device, ops: Seq<CmdOp>) -> bool {
    let c = pre.current as int;
    &&& post.current == pre.current
    &&& post.spec_slot(c).commands.recording
    &&& post.spec_slot(c).commands.recorded@ == pre.spec_slot(c).commands.recorded@ + ops
    &&& post.spec_slot(c) == (FrameSlot { commands: post.spec_slot(c).commands, ..pre.spec_slot(c) })
    &&& post.spec_slot(1 - c) == pre.spec_slot(1 - c)
    &&& post == (Device {
        slot0: post.slot0,
        slot1: post.slot1,
        stats: post.stats,
        used_pipelines: post.used_pipelines,
        used_descriptors: post.used_descriptors,
        ..pre
    })
}

/// The statistics counters did not move.
pub open spec fn spec_counters_kept(pre: Device, post: Device) -> bool {
    &&& post.stats == pre.stats
    &&& post.used_pipelines@ == pre.used_pipelines@
    &&& post.used_descriptors@ == pre.used_descriptors@
}

/// A deferred free: only the current slot's reclamation ledger changed.
pub open spec fn spec_deferred(pre: Device, post: Device) -> bool {
    let c = pre.current as int;
    &&& post.current == pre.current
    &&& post.spec_slot(c) == (FrameSlot { ledger: post.spec_slot(c).ledger, ..pre.spec_slot(c) })
    &&& post.spec_slot(1 - c) == pre.spec_slot(1 - c)
    &&& post == (Device { slot0: post.slot0, slot1: post.slot1, ..pre })
}

/// A full device idle wait: every pending fence has retired; nothing else
/// changed.
pub open spec fn spec_idled(pre: Device, post: Device) -> bool {
    &&& post.slot0.fence.signaled == (pre.slot0.fence.signaled || pre.slot0.fence.pending)
    &&& !post.slot0.fence.pending
    &&& post.slot1.fence.signaled == (pre.slot1.fence.signaled || pre.slot1.fence.pending)
    &&& !post.slot1.fence.pending
    &&& post.slot0 == (FrameSlot { fence: post.slot0.fence, ..pre.slot0 })
    &&& post.slot1 == (FrameSlot { fence: post.slot1.fence, ..pre.slot1 })
    &&& post == (Device { slot0: post.slot0, slot1: post.slot1, ..pre })
}

/// Law: fence-gated reclamation. A resource queued for reclamation on the
/// slot whose frame is being recorded is not handed back by the rotation
/// that lands on the other slot; it is handed back exactly by the rotation
/// that returns to its own slot — a rotation that by [`spec_rotated`] first
/// waits on that slot's fence, so the GPU has provably finished with it —
/// and only once: the queue is drained by that hand-back.
pub proof fn lemma_fence_gated_reclamation(
    a: Device,
    b: Device,
    c: Device,
    r1: FrameStart,
    r2: FrameStart,
    buf: BufferAlloc,
)
    requires
        a.current < FRAMES_IN_FLIGHT,
        spec_rotated(a, b, r1),
        spec_rotated(b, c, r2),
        a.spec_slot(a.current as int).ledger.buffers@.contains(buf),
        !a.spec_slot(a.spec_next_slot()).ledger.buffers@.contains(buf),
    ensures
        !r1.freed.buffers@.contains(buf),
        b.spec_slot(a.current as int).ledger.buffers@.contains(buf),
        r2.slot == a.current,
        r2.freed.buffers@.contains(buf),
        c.spec_slot(a.current as int).ledger.buffers@.len() == 0,
{
    let cur = a.current as int;
    let s1 = a.spec_next_slot();
    assert(s1 != cur);
    assert(1 - s1 == cur);
    assert(b.spec_slot(cur) == a.spec_slot(cur));
    assert(b.spec_next_slot() == cur);
    assert(r2.freed.buffers@ == b.spec_slot(cur).ledger.buffers@);
}

/// Law: frame-slot rotation is cyclic with period [`FRAMES_IN_FLIGHT`].
/// Consecutive rotations visit the slots in order, and the rotation
/// [`FRAMES_IN_FLIGHT`] steps later lands on the same slot again.
pub proof fn lemma_rotation_cyclic(
    a: Device,
    b: Device,
    c: Device,
    d: Device,
    r1: FrameStart,
    r2: FrameStart,
    r3: FrameStart,
)
    requires
        a.current < FRAMES_IN_FLIGHT,
        spec_rotated(a, b, r1),
        spec_rotated(b, c, r2),
        spec_rotated(c, d, r3),
    ensures
        r2.slot == (r1.slot + 1) % (FRAMES_IN_FLIGHT as int),
        r3.slot == r1.slot,
{
}

/// Law: the fence wait is the backpressure. Starting from a device whose
/// fences are all signaled (as at construction), the first
/// [`FRAMES_IN_FLIGHT`] rotations pass without blocking, but with nothing
/// submitted and no fence signal in between, the rotation after that must
/// observe that its slot's fence has not signaled again and wait.
pub proof fn lemma_unsubmitted_rotation_waits(
    a: Device,
    b: Device,
    c: Device,
    d: Device,
    r1: FrameStart,
    r2: FrameStart,
    r3: FrameStart,
)
    requires
        a.current < FRAMES_IN_FLIGHT,
        a.spec_slot(0).fence.signaled,
        a.spec_slot(1).fence.signaled,
        spec_rotated(a, b, r1),
        spec_rotated(b, c, r2),
        spec_rotated(c, d, r3),
    ensures
        !r1.waited,
        !r2.waited,
        r3.waited,
{
    let s1 = a.spec_next_slot();
    assert(1 - s1 == a.current as int);
    assert(b.spec_next_slot() == a.current as int);
    assert(c.spec_slot(s1) == b.spec_slot(s1));
    assert(!c.spec_slot(s1).fence.signaled);
}

} // verus!
