//! Buffer memory: a GPU buffer handle bound to its backing memory.
//!
//! The wrapper holds a counted reference to the device in the full engine;
//! here the device is passed explicitly. Destruction is deferred: the
//! wrapper enqueues its handles into the device's reclamation ledger instead
//! of freeing them while queued command buffers might still reference them.

use vstd::prelude::*;

use crate::commands::CmdOp;
use crate::commands::Commands;
use crate::device::Device;
use crate::device::spec_deferred;
use crate::device::spec_idled;
use crate::error::Error;
use crate::memory::MemoryAccess;
use crate::memory::spec_memory_type_suits;
use crate::reclaim::BufferAlloc;

verus! {

/// An allocated buffer with its backing memory and size.
#[derive(Debug, Clone, Copy, PartialEq, Eq, Structural)]
pub struct BufferMemory {
    pub handle: u64,
    pub memory: u64,
    pub size: u64,
}

impl BufferMemory {
    /// Allocate a buffer of `size` bytes with the given access pattern;
    /// `type_bits` is the driver-reported requirement bitmask for it.
    pub fn new(device: &mut Device, access: MemoryAccess, type_bits: u32, size: u64) -> (r: Result<
        BufferMemory,
        Error,
    >)
        requires
            old(device).wf(),
            old(device).next_handle <= u64::MAX - 2,
        ensures
            final(device).wf(),
            match r {
                Ok(b) => {
                    &&& b.handle == old(device).next_handle
                    &&& b.memory == old(device).next_handle + 1
                    &&& b.size == size
                    &&& *final(device) == (Device {
                        next_handle: (old(device).next_handle + 2) as u64,
                        ..*old(device)
                    })
                },
                Err(e) => {
                    &&& e == Error::UnsupportedMemoryType
                    &&& forall|i: u32|
                        !spec_memory_type_suits(
                            old(device).memory_types@,
                            type_bits,
                            access.spec_flags(),
                            i,
                        )
                    &&& *final(device) == *old(device)
                },
            },
    {
        match device.allocate_buffer(size, type_bits, access) {
            Ok(a) => Ok(BufferMemory { handle: a.buffer, memory: a.memory, size }),
            Err(e) => Err(e),
        }
    }

    /// Copy another buffer's contents into this one through the synchronous
    /// one-off command path: record the copy, submit it and wait for full
    /// device idleness. The closed one-off recording is handed back so the
    /// platform layer can execute it; it holds exactly the one copy.
    pub fn copy_from_memory(&self, device: &mut Device, src: &BufferMemory, size: u64) -> (r:
        Commands)
        requires
            old(device).wf(),
        ensures
            final(device).wf(),
            spec_idled(*old(device), *final(device)),
            !r.recording,
            r.recorded@ == seq![CmdOp::CopyBuffer { src: src.handle, dst: self.handle, size }],
    {
        let mut commands = Commands::new();
        commands.begin();
        commands.record(CmdOp::CopyBuffer { src: src.handle, dst: self.handle, size });
        commands.end();
        device.do_commands(&commands);
        proof {
            assert(commands.recorded@ =~= seq![
                CmdOp::CopyBuffer { src: src.handle, dst: self.handle, size },
            ]);
        }
        commands
    }

    /// The buffer handle.
    pub fn handle(&self) -> (r: u64)
        ensures
            r == self.handle,
    {
        self.handle
    }

    /// Drop the buffer: its handles are queued on the current frame slot and
    /// freed only when that slot's fence next proves the GPU done with them.
    pub fn release(self, device: &mut Device)
        requires
            old(device).wf(),
        ensures
            final(device).wf(),
            spec_deferred(*old(device), *final(device)),
            final(device).spec_slot(old(device).current as int).ledger.buffers@ == old(
                device,
            ).spec_slot(old(device).current as int).ledger.buffers@.push(
                BufferAlloc { buffer: self.handle, memory: self.memory },
            ),
    {
        device.free_buffer(BufferAlloc { buffer: self.handle, memory: self.memory });
    }
}

} // verus!
