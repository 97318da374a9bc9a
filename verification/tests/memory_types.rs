//! Memory-type selection against requirement bitmasks and access patterns.

use duku::memory::MEMORY_DEVICE_LOCAL;
use duku::memory::MEMORY_HOST_COHERENT;
use duku::memory::MEMORY_HOST_VISIBLE;
use duku::memory::MemoryAccess;
use duku::memory::MemoryType;
use duku::memory::pick_memory_type;

fn sample_types() -> Vec<MemoryType> {
    vec![
        MemoryType { property_flags: MEMORY_DEVICE_LOCAL },
        MemoryType { property_flags: MEMORY_HOST_VISIBLE },
        MemoryType { property_flags: MEMORY_HOST_VISIBLE | MEMORY_HOST_COHERENT },
        MemoryType { property_flags: MEMORY_DEVICE_LOCAL | MEMORY_HOST_VISIBLE | MEMORY_HOST_COHERENT },
    ]
}

#[test]
fn picks_first_satisfying_type() {
    let types = sample_types();
    // all four types allowed by the bitmask: GPU access picks index 0
    assert_eq!(pick_memory_type(&types, 0b1111, MemoryAccess::Gpu.flags()), Some(0));
    // CPU access needs host-visible and coherent: first match is index 2
    assert_eq!(pick_memory_type(&types, 0b1111, MemoryAccess::Cpu.flags()), Some(2));
}

#[test]
fn requirement_bitmask_restricts_candidates() {
    let types = sample_types();
    // index 0 excluded by the bitmask: the device-local pick moves to index 3
    assert_eq!(pick_memory_type(&types, 0b1110, MemoryAccess::Gpu.flags()), Some(3));
    // only index 1 allowed, but it lacks coherence
    assert_eq!(pick_memory_type(&types, 0b0010, MemoryAccess::Cpu.flags()), None);
}

#[test]
fn no_conforming_type_fails_rather_than_picking() {
    let types = vec![MemoryType { property_flags: MEMORY_HOST_VISIBLE }];
    // a non-conforming type is never picked silently
    assert_eq!(pick_memory_type(&types, 0b1, MemoryAccess::Gpu.flags()), None);
    assert_eq!(pick_memory_type(&types, 0b1, MemoryAccess::Cpu.flags()), None);
}

#[test]
fn empty_bitmask_never_matches() {
    let types = sample_types();
    assert_eq!(pick_memory_type(&types, 0, MemoryAccess::Gpu.flags()), None);
}

#[test]
fn access_pattern_flags() {
    assert_eq!(MemoryAccess::Gpu.flags(), MEMORY_DEVICE_LOCAL);
    assert_eq!(MemoryAccess::Cpu.flags(), MEMORY_HOST_VISIBLE | MEMORY_HOST_COHERENT);
}
