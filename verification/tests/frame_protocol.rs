//! The frame protocol: rotation, backpressure, fence-gated reclamation and
//! surface staleness, driven with a mock GPU standing in for the driver.

use duku::device::Device;
use duku::device::FRAMES_IN_FLIGHT;
use duku::device::PresentOutcome;
use duku::device::Stats;
use duku::error::Error;
use duku::gpu::COLOR_SPACE_SRGB;
use duku::gpu::DeviceType;
use duku::gpu::FORMAT_SBGRA;
use duku::gpu::GpuProperties;
use duku::gpu::Msaa;
use duku::gpu::PresentMode;
use duku::gpu::SurfaceFormat;
use duku::gpu::VSync;
use duku::memory::MEMORY_DEVICE_LOCAL;
use duku::memory::MEMORY_HOST_COHERENT;
use duku::memory::MEMORY_HOST_VISIBLE;
use duku::memory::MemoryAccess;
use duku::memory::MemoryType;
use duku::swapchain::Acquire;
use duku::swapchain::SurfaceCapabilities;
use duku::swapchain::Swapchain;

fn test_gpu() -> GpuProperties {
    GpuProperties {
        device_type: DeviceType::Discrete,
        supports_extensions: true,
        queue_index: Some(0),
        sampler_anisotropy: true,
        fill_mode_non_solid: true,
        wide_lines: true,
        present_modes: vec![PresentMode::Fifo],
        msaa_levels: vec![Msaa::Disabled],
        formats: vec![SurfaceFormat { format: FORMAT_SBGRA, color_space: COLOR_SPACE_SRGB }],
        memory_types: vec![
            MemoryType { property_flags: MEMORY_DEVICE_LOCAL },
            MemoryType { property_flags: MEMORY_HOST_VISIBLE | MEMORY_HOST_COHERENT },
        ],
    }
}

fn test_swapchain() -> Swapchain {
    let caps = SurfaceCapabilities {
        current_width: 800,
        current_height: 600,
        min_width: 1,
        max_width: 4096,
        min_height: 1,
        max_height: 4096,
        min_image_count: 2,
        max_image_count: 0,
    };
    Swapchain::new(caps, 800, 600, VSync::On)
}

#[test]
fn rotation_is_cyclic_with_period_frames_in_flight() {
    assert_eq!(FRAMES_IN_FLIGHT, 2);
    let mut device = Device::new(&test_gpu());
    let mut swapchain = test_swapchain();
    let mut slots = Vec::new();
    for _ in 0..5 {
        let start = device
            .next_frame(&mut swapchain, Acquire::Image { index: 0 })
            .unwrap();
        slots.push(start.slot);
    }
    assert_eq!(slots, vec![0, 1, 0, 1, 0]);
}

#[test]
fn upcoming_slot_is_where_the_next_rotation_lands() {
    let mut device = Device::new(&test_gpu());
    let mut swapchain = test_swapchain();
    assert_eq!(device.upcoming_slot(), 0);
    let start = device
        .next_frame(&mut swapchain, Acquire::Image { index: 0 })
        .unwrap();
    assert_eq!(start.slot, 0);
    assert_eq!(device.upcoming_slot(), 1);
}

#[test]
fn third_frame_without_submission_must_wait() {
    let mut device = Device::new(&test_gpu());
    let mut swapchain = test_swapchain();
    let mut waits = Vec::new();
    for _ in 0..5 {
        let start = device
            .next_frame(&mut swapchain, Acquire::Image { index: 0 })
            .unwrap();
        waits.push((start.slot, start.waited));
    }
    // the first two rotations find their fences still signaled from
    // construction; the third observes that slot 0's fence has not signaled
    // again and therefore waits
    assert_eq!(
        waits,
        vec![(0, false), (1, false), (0, true), (1, true), (0, true)]
    );
}

#[test]
fn fence_gated_reclamation_frees_exactly_once_after_signal() {
    let mut device = Device::new(&test_gpu());
    let mut swapchain = test_swapchain();

    // frame on slot 0: allocate, record, destroy the buffer mid-frame
    let start = device
        .next_frame(&mut swapchain, Acquire::Image { index: 0 })
        .unwrap();
    assert_eq!(start.slot, 0);
    let buffer = device
        .allocate_buffer(256, 0b11, MemoryAccess::Gpu)
        .unwrap();
    device.free_buffer(buffer);
    let submit = device.submit();
    assert_eq!(submit.slot, 0);

    // rotating to slot 1 must not free slot 0's resources
    let start = device
        .next_frame(&mut swapchain, Acquire::Image { index: 1 })
        .unwrap();
    assert_eq!(start.slot, 1);
    assert!(start.freed.buffers.is_empty());
    assert!(start.freed.pipelines.is_empty());
    assert!(start.freed.images.is_empty());
    device.submit();

    // the mock GPU finishes slot 0's submission and signals its fence; the
    // rotation back onto slot 0 hands the buffer out exactly once
    device.signal_fence(0);
    let start = device
        .next_frame(&mut swapchain, Acquire::Image { index: 0 })
        .unwrap();
    assert_eq!(start.slot, 0);
    assert!(!start.waited);
    assert_eq!(start.freed.buffers, vec![buffer]);

    // and never again: the queue was drained
    device.signal_fence(1);
    let start = device
        .next_frame(&mut swapchain, Acquire::Image { index: 1 })
        .unwrap();
    assert!(start.freed.buffers.is_empty());
    let start = device
        .next_frame(&mut swapchain, Acquire::Image { index: 0 })
        .unwrap();
    assert!(start.freed.buffers.is_empty());
}

#[test]
fn stale_surface_on_acquire_is_recoverable_not_fatal() {
    let mut device = Device::new(&test_gpu());
    let mut swapchain = test_swapchain();
    let before = device.current_frame();

    let err = device
        .next_frame(&mut swapchain, Acquire::OutOfDate)
        .unwrap_err();
    // a distinct, resize-triggering condition, not a generic fatal error
    assert_eq!(err, Error::SurfaceOutOfDate);
    assert!(err.requires_resize());
    assert_ne!(err, Error::GpuError);
    // nothing rotated
    assert_eq!(device.current_frame(), before);
}

#[test]
fn stale_surface_on_present_is_recoverable_not_fatal() {
    let mut device = Device::new(&test_gpu());
    let mut swapchain = test_swapchain();
    device
        .next_frame(&mut swapchain, Acquire::Image { index: 0 })
        .unwrap();
    device.submit();

    let err = device
        .present(&swapchain, PresentOutcome::OutOfDate)
        .unwrap_err();
    assert_eq!(err, Error::SurfaceOutOfDate);
    assert!(err.requires_resize());

    let err = device
        .present(&swapchain, PresentOutcome::Failure)
        .unwrap_err();
    assert_eq!(err, Error::GpuError);
    assert!(!err.requires_resize());
}

#[test]
fn submit_and_present_form_the_semaphore_chain() {
    let mut device = Device::new(&test_gpu());
    let mut swapchain = test_swapchain();
    let start = device
        .next_frame(&mut swapchain, Acquire::Image { index: 1 })
        .unwrap();
    assert_eq!(start.image, 1);

    let submit = device.submit();
    let acquire_sem = device.slot0.acquire_semaphore.handle;
    let release_sem = device.slot0.release_semaphore.handle;
    // submit waits on the slot's acquire semaphore and signals its release
    assert_eq!(submit.wait_semaphore, acquire_sem);
    assert_eq!(submit.signal_semaphore, release_sem);

    // present waits on the very semaphore submit signals
    let present = device
        .present(&swapchain, PresentOutcome::Success)
        .unwrap();
    assert_eq!(present.wait_semaphore, release_sem);
    assert_eq!(present.image, 1);
}

#[test]
fn wait_for_idle_retires_pending_fences() {
    let mut device = Device::new(&test_gpu());
    let mut swapchain = test_swapchain();
    device
        .next_frame(&mut swapchain, Acquire::Image { index: 0 })
        .unwrap();
    device.submit();
    assert!(device.slot0.fence.pending);

    device.wait_for_idle();
    assert!(device.slot0.fence.signaled);
    assert!(!device.slot0.fence.pending);

    // the next rotation onto slot 0 then passes without blocking
    device
        .next_frame(&mut swapchain, Acquire::Image { index: 0 })
        .unwrap();
    let start = device
        .next_frame(&mut swapchain, Acquire::Image { index: 0 })
        .unwrap();
    assert_eq!(start.slot, 0);
    assert!(!start.waited);
}

#[test]
fn resize_waits_idle_and_rebuilds_the_chain() {
    let mut device = Device::new(&test_gpu());
    let mut swapchain = test_swapchain();
    device
        .next_frame(&mut swapchain, Acquire::Image { index: 0 })
        .unwrap();
    device.submit();
    assert!(device.slot0.fence.pending);

    let caps = SurfaceCapabilities {
        current_width: 1024,
        current_height: 768,
        min_width: 1,
        max_width: 4096,
        min_height: 1,
        max_height: 4096,
        min_image_count: 2,
        max_image_count: 0,
    };
    device.resize(&mut swapchain, caps, 1024, 768, VSync::On);
    // the idle wait retired the pending submission before the old chain died
    assert!(!device.slot0.fence.pending);
    assert_eq!((swapchain.width, swapchain.height), (1024, 768));
    assert_eq!(swapchain.current(), 0);
}

#[test]
fn out_of_range_image_index_is_fatal() {
    let mut device = Device::new(&test_gpu());
    let mut swapchain = test_swapchain();
    let count = swapchain.image_count;
    let err = device
        .next_frame(&mut swapchain, Acquire::Image { index: count })
        .unwrap_err();
    assert_eq!(err, Error::GpuError);
}

#[test]
fn next_frame_resets_statistics() {
    let mut device = Device::new(&test_gpu());
    let mut swapchain = test_swapchain();
    device
        .next_frame(&mut swapchain, Acquire::Image { index: 0 })
        .unwrap();
    device.cmd_bind_shader(77);
    device.cmd_draw(12);
    assert_eq!(device.stats().draw_calls, 1);
    assert_eq!(device.stats().drawn_indices, 12);
    assert_eq!(device.stats().shaders_used, 1);

    device
        .next_frame(&mut swapchain, Acquire::Image { index: 1 })
        .unwrap();
    assert_eq!(device.stats(), Stats::zero());
}

#[test]
fn teardown_hands_back_everything_still_queued() {
    let mut device = Device::new(&test_gpu());
    let mut swapchain = test_swapchain();
    device
        .next_frame(&mut swapchain, Acquire::Image { index: 0 })
        .unwrap();
    let b0 = device
        .allocate_buffer(16, 0b11, MemoryAccess::Cpu)
        .unwrap();
    device.free_buffer(b0);
    device.destroy_pipeline(99);
    device.submit();
    device
        .next_frame(&mut swapchain, Acquire::Image { index: 1 })
        .unwrap();
    let b1 = device
        .allocate_buffer(16, 0b11, MemoryAccess::Gpu)
        .unwrap();
    device.free_buffer(b1);

    device.wait_for_idle();
    let left = device.destroy();
    assert_eq!(left.buffers, vec![b0, b1]);
    assert_eq!(left.pipelines, vec![99]);
    assert!(left.images.is_empty());
}
