//! Memory-type selection.
//!
//! For each allocation the driver reports a bitmask of acceptable memory type
//! indices; the requested access pattern adds required property flags
//! (host-visible and coherent for CPU-side staging, device-local for
//! GPU-resident data). Selection intersects the two and picks the first
//! memory type satisfying both, or fails with the unsupported-memory-type
//! condition.

use vstd::prelude::*;

verus! {

/// The memory is directly visible to the GPU only.
pub const MEMORY_DEVICE_LOCAL: u32 = 0x1;
/// The memory can be mapped into CPU address space.
pub const MEMORY_HOST_VISIBLE: u32 = 0x2;
/// CPU writes to the mapped memory need no explicit flush.
pub const MEMORY_HOST_COHERENT: u32 = 0x4;

/// One memory type as the driver reports it: a bundle of property flags.
#[derive(Debug, Clone, Copy, PartialEq, Eq, Structural)]
pub struct MemoryType {
    pub property_flags: u32,
}

/// Requested access pattern for an allocation.
#[derive(Debug, Clone, Copy, PartialEq, Eq, Structural)]
pub enum MemoryAccess {
    /// CPU-side staging memory: host-visible and coherent.
    Cpu,
    /// GPU-resident memory: device-local.
    Gpu,
}

impl MemoryAccess {
    /// The property flags this access pattern requires of a memory type.
    pub open spec fn spec_flags(self) -> u32 {
        match self {
            MemoryAccess::Cpu => MEMORY_HOST_VISIBLE | MEMORY_HOST_COHERENT,
            MemoryAccess::Gpu => MEMORY_DEVICE_LOCAL,
        }
    }

    /// The property flags this access pattern requires of a memory type.
    pub fn flags(self) -> (r: u32)
        ensures
            r == self.spec_flags(),
    {
        match self {
            MemoryAccess::Cpu => MEMORY_HOST_VISIBLE | MEMORY_HOST_COHERENT,
            MemoryAccess::Gpu => MEMORY_DEVICE_LOCAL,
        }
    }
}

/// Whether bit `i` of the driver-reported requirement bitmask is set.
pub open spec fn spec_type_bit_set(type_bits: u32, i: u32) -> bool {
    type_bits & (1u32 << i) != 0
}

/// Whether the property flags of a memory type include all required flags.
pub open spec fn spec_flags_satisfied(property_flags: u32, required: u32) -> bool {
    property_flags & required == required
}

/// Whether memory type `i` satisfies both the requirement bitmask and the
/// required property flags.
pub open spec fn spec_memory_type_suits(
    types: Seq<MemoryType>,
    type_bits: u32,
    required: u32,
    i: u32,
) -> bool {
    &&& (i as int) < types.len()
    &&& spec_type_bit_set(type_bits, i)
    &&& spec_flags_satisfied(types[i as int].property_flags, required)
}

/// Select the first memory type that both the requirement bitmask and the
/// required property flags accept.
///
/// Returns `Some` exactly when at least one reported memory type satisfies
/// both constraints, and then the least such index; a non-conforming type is
/// never picked silently.
pub fn pick_memory_type(types: &Vec<MemoryType>, type_bits: u32, required: u32) -> (r: Option<
    u32,
>)
    requires
        types@.len() <= 32,
    ensures
        match r {
            Some(i) => spec_memory_type_suits(types@, type_bits, required, i) && (forall|j: u32|
                j < i ==> !spec_memory_type_suits(types@, type_bits, required, j)),
            None => forall|j: u32| !spec_memory_type_suits(types@, type_bits, required, j),
        },
{
    let mut i: usize = 0;
    while i < types.len()
        invariant
            i <= types@.len() <= 32,
            forall|j: u32| j < i ==> !spec_memory_type_suits(types@, type_bits, required, j),
        decreases types@.len() - i,
    {
        let has_type = type_bits & (1u32 << (i as u32)) != 0;
        let has_flags = types[i].property_flags & required == required;
        if has_type && has_flags {
            return Some(i as u32);
        }
        assert(!spec_memory_type_suits(types@, type_bits, required, i as u32));
        i = i + 1;
    }
    assert(forall|j: u32| (j as int) >= types@.len() ==> !spec_memory_type_suits(
        types@,
        type_bits,
        required,
        j,
    ));
    None
}

} // verus!
