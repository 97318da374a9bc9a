//! GPU selection: scoring, determinism and disqualification.

use duku::error::Error;
use duku::gpu::COLOR_SPACE_SRGB;
use duku::gpu::DeviceType;
use duku::gpu::FORMAT_SBGRA;
use duku::gpu::GpuProperties;
use duku::gpu::Msaa;
use duku::gpu::PresentMode;
use duku::gpu::SurfaceFormat;
use duku::gpu::VSync;
use duku::gpu::pick_gpu;
use duku::memory::MEMORY_DEVICE_LOCAL;
use duku::memory::MemoryType;

fn capable_gpu(device_type: DeviceType) -> GpuProperties {
    GpuProperties {
        device_type,
        supports_extensions: true,
        queue_index: Some(0),
        sampler_anisotropy: true,
        fill_mode_non_solid: true,
        wide_lines: true,
        present_modes: vec![PresentMode::Fifo, PresentMode::Immediate],
        msaa_levels: vec![Msaa::Disabled, Msaa::X4],
        formats: vec![SurfaceFormat { format: FORMAT_SBGRA, color_space: COLOR_SPACE_SRGB }],
        memory_types: vec![MemoryType { property_flags: MEMORY_DEVICE_LOCAL }],
    }
}

#[test]
fn discrete_gpu_beats_integrated() {
    let props = vec![capable_gpu(DeviceType::Integrated), capable_gpu(DeviceType::Discrete)];
    assert_eq!(pick_gpu(&props, VSync::On, Msaa::Disabled), Ok(1));
}

#[test]
fn selection_is_deterministic() {
    let props = vec![
        capable_gpu(DeviceType::Integrated),
        capable_gpu(DeviceType::Discrete),
        capable_gpu(DeviceType::Discrete),
    ];
    let first = pick_gpu(&props, VSync::On, Msaa::Disabled).unwrap();
    for _ in 0..10 {
        assert_eq!(pick_gpu(&props, VSync::On, Msaa::Disabled).unwrap(), first);
    }
    // ties go to the earlier enumeration index
    assert_eq!(first, 1);
}

#[test]
fn missing_anisotropy_disqualifies_even_discrete() {
    let mut discrete = capable_gpu(DeviceType::Discrete);
    discrete.sampler_anisotropy = false;
    let props = vec![capable_gpu(DeviceType::Integrated), discrete];
    // the discrete bonus never outweighs a missing mandatory capability
    assert_eq!(pick_gpu(&props, VSync::On, Msaa::Disabled), Ok(0));
}

#[test]
fn each_mandatory_capability_disqualifies() {
    let breakers: Vec<Box<dyn Fn(&mut GpuProperties)>> = vec![
        Box::new(|p| p.supports_extensions = false),
        Box::new(|p| p.queue_index = None),
        Box::new(|p| p.sampler_anisotropy = false),
        Box::new(|p| p.fill_mode_non_solid = false),
        Box::new(|p| p.wide_lines = false),
        Box::new(|p| p.present_modes = vec![PresentMode::Immediate]),
        Box::new(|p| p.msaa_levels = vec![Msaa::Disabled]),
        Box::new(|p| p.formats = vec![]),
    ];
    for breaker in breakers {
        let mut gpu = capable_gpu(DeviceType::Discrete);
        breaker(&mut gpu);
        let props = vec![gpu];
        assert_eq!(pick_gpu(&props, VSync::On, Msaa::X4), Err(Error::NoSuitableGpu));
    }
}

#[test]
fn no_candidates_is_no_suitable_gpu() {
    let props: Vec<GpuProperties> = vec![];
    assert_eq!(pick_gpu(&props, VSync::On, Msaa::Disabled), Err(Error::NoSuitableGpu));
}

#[test]
fn requested_present_mode_is_mandatory() {
    let mut gpu = capable_gpu(DeviceType::Discrete);
    gpu.present_modes = vec![PresentMode::Fifo];
    let props = vec![gpu];
    // vsync off asks for immediate presentation, which this GPU lacks
    assert_eq!(pick_gpu(&props, VSync::Off, Msaa::Disabled), Err(Error::NoSuitableGpu));
    assert_eq!(pick_gpu(&props, VSync::On, Msaa::Disabled), Ok(0));
}
