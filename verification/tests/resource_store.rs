//! Resource storage, allocation bookkeeping and the buffer wrapper.

use duku::buffer::BufferMemory;
use duku::commands::CmdOp;
use duku::device::Device;
use duku::error::Error;
use duku::gpu::COLOR_SPACE_SRGB;
use duku::gpu::DeviceType;
use duku::gpu::FORMAT_SBGRA;
use duku::gpu::GpuProperties;
use duku::gpu::Msaa;
use duku::gpu::PresentMode;
use duku::gpu::SurfaceFormat;
use duku::memory::MEMORY_DEVICE_LOCAL;
use duku::memory::MEMORY_HOST_COHERENT;
use duku::memory::MEMORY_HOST_VISIBLE;
use duku::memory::MemoryAccess;
use duku::memory::MemoryType;
use duku::store::Index;
use duku::store::Store;
use duku::texture::CoreTexture;
use duku::texture::Texture;

fn test_gpu() -> GpuProperties {
    GpuProperties {
        device_type: DeviceType::Discrete,
        supports_extensions: true,
        queue_index: Some(0),
        sampler_anisotropy: true,
        fill_mode_non_solid: true,
        wide_lines: true,
        present_modes: vec![PresentMode::Fifo],
        msaa_levels: vec![Msaa::Disabled],
        formats: vec![SurfaceFormat { format: FORMAT_SBGRA, color_space: COLOR_SPACE_SRGB }],
        memory_types: vec![
            MemoryType { property_flags: MEMORY_DEVICE_LOCAL },
            MemoryType { property_flags: MEMORY_HOST_VISIBLE | MEMORY_HOST_COHERENT },
        ],
    }
}

#[test]
fn store_hands_out_fresh_indices() {
    let mut store: Store<&str> = Store::new();
    let a = store.add("first");
    let b = store.add("second");
    assert_eq!(a.pointer(), 0);
    assert_eq!(b.pointer(), 1);
    assert_eq!(*store.get(&a), "first");
    assert_eq!(*store.get(&b), "second");
}

#[test]
fn store_get_mut_writes_through() {
    let mut store: Store<u32> = Store::new();
    let a = store.add(10);
    let b = store.add(20);
    *store.get_mut(&a) += 5;
    assert_eq!(*store.get(&a), 15);
    assert_eq!(*store.get(&b), 20);
}

#[test]
fn texture_wraps_its_store_index() {
    let index = Index::new(7);
    let texture = Texture::new(index);
    assert_eq!(texture.index.pointer(), 7);
    let core = CoreTexture { image_index: 3 };
    assert_eq!(core.image_index(), 3);
}

#[test]
fn allocations_hand_out_distinct_handles() {
    let mut device = Device::new(&test_gpu());
    let a = device.allocate_buffer(64, 0b11, MemoryAccess::Gpu).unwrap();
    let b = device.allocate_buffer(64, 0b11, MemoryAccess::Cpu).unwrap();
    let img = device.allocate_image(0b01).unwrap();
    let handles = [a.buffer, a.memory, b.buffer, b.memory, img.image, img.memory];
    for (i, x) in handles.iter().enumerate() {
        for y in handles.iter().skip(i + 1) {
            assert_ne!(x, y);
        }
    }
}

#[test]
fn allocation_without_conforming_type_fails_cleanly() {
    let mut device = Device::new(&test_gpu());
    let before_handle = device.next_handle;
    // bitmask admits only the host-visible type, but GPU access needs
    // device-local: selection must fail, not pick a non-conforming type
    let err = device.allocate_buffer(64, 0b10, MemoryAccess::Gpu).unwrap_err();
    assert_eq!(err, Error::UnsupportedMemoryType);
    // no partial allocation leaked
    assert_eq!(device.next_handle, before_handle);

    let err = device.allocate_image(0b10).unwrap_err();
    assert_eq!(err, Error::UnsupportedMemoryType);
}

#[test]
fn buffer_wrapper_defers_its_own_destruction() {
    let mut device = Device::new(&test_gpu());
    let buffer = BufferMemory::new(&mut device, MemoryAccess::Cpu, 0b11, 128).unwrap();
    assert_eq!(buffer.size, 128);
    let handle = buffer.handle();
    buffer.release(&mut device);
    let current = device.current_frame();
    let ledger = if current == 0 { &device.slot0.ledger } else { &device.slot1.ledger };
    assert_eq!(ledger.buffers.len(), 1);
    assert_eq!(ledger.buffers[0].buffer, handle);
}

#[test]
fn buffer_copy_runs_on_the_synchronous_path() {
    let mut device = Device::new(&test_gpu());
    let src = BufferMemory::new(&mut device, MemoryAccess::Cpu, 0b11, 64).unwrap();
    let dst = BufferMemory::new(&mut device, MemoryAccess::Gpu, 0b01, 64).unwrap();
    // the one-off path hands back a closed recording holding exactly the
    // copy, and waits the device idle
    let commands = dst.copy_from_memory(&mut device, &src, 64);
    assert!(!commands.recording);
    assert_eq!(
        commands.recorded,
        vec![CmdOp::CopyBuffer { src: src.handle(), dst: dst.handle(), size: 64 }]
    );
    assert!(!device.slot0.fence.pending);
    assert!(!device.slot1.fence.pending);
}

#[test]
fn store_remove_takes_out_exactly_one_entry() {
    let mut store: Store<&str> = Store::new();
    let a = store.add("first");
    let b = store.add("second");
    let c = store.add("third");
    assert_eq!(store.remove(&b), "second");
    assert_eq!(*store.get(&a), "first");
    assert_eq!(*store.get(&c), "third");
    // the freed index is not reused
    let d = store.add("fourth");
    assert_eq!(d.pointer(), 3);
}
