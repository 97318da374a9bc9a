//! Shader construction from tar archives of compiled binaries.

use duku::device::Device;
use duku::error::Error;
use duku::gpu::COLOR_SPACE_SRGB;
use duku::gpu::DeviceType;
use duku::gpu::FORMAT_SBGRA;
use duku::gpu::GpuProperties;
use duku::gpu::Msaa;
use duku::gpu::PresentMode;
use duku::gpu::SurfaceFormat;
use duku::memory::MEMORY_DEVICE_LOCAL;
use duku::memory::MemoryType;
use duku::shader::Shader;
use duku::shader::ShaderOptions;
use duku::shader::bytes_end_with;
use duku::shader::component_is;
use duku::shader::shader_sources_from_archive;
use duku::spirv::SPIRV_MAGIC;

fn test_gpu() -> GpuProperties {
    GpuProperties {
        device_type: DeviceType::Discrete,
        supports_extensions: true,
        queue_index: Some(0),
        sampler_anisotropy: true,
        fill_mode_non_solid: true,
        wide_lines: true,
        present_modes: vec![PresentMode::Fifo],
        msaa_levels: vec![Msaa::Disabled],
        formats: vec![SurfaceFormat { format: FORMAT_SBGRA, color_space: COLOR_SPACE_SRGB }],
        memory_types: vec![MemoryType { property_flags: MEMORY_DEVICE_LOCAL }],
    }
}

fn spirv_bytes(extra_words: &[u32]) -> Vec<u8> {
    let mut out = SPIRV_MAGIC.to_le_bytes().to_vec();
    for w in extra_words {
        out.extend_from_slice(&w.to_le_bytes());
    }
    out
}

fn archive_with(entries: &[(&str, &[u8])]) -> Vec<u8> {
    let mut builder = tar::Builder::new(Vec::new());
    for (name, data) in entries {
        let mut header = tar::Header::new_gnu();
        header.set_size(data.len() as u64);
        header.set_cksum();
        builder.append_data(&mut header, name, *data).unwrap();
    }
    builder.into_inner().unwrap()
}

#[test]
fn sources_are_picked_by_file_name() {
    let vert = spirv_bytes(&[1, 2]);
    let frag = spirv_bytes(&[3]);
    let archive = archive_with(&[
        ("shader/vert.spv", vert.as_slice()),
        ("shader/frag.spv", frag.as_slice()),
        ("shader/readme", b"ignored"),
        ("shader/notvert.spv", b"ignored too"),
    ]);
    let (got_vert, got_frag) = shader_sources_from_archive(&archive).unwrap();
    assert_eq!(got_vert, vert);
    assert_eq!(got_frag, frag);
}

#[test]
fn shader_builds_from_valid_archive() {
    let mut device = Device::new(&test_gpu());
    let vert = spirv_bytes(&[1]);
    let frag = spirv_bytes(&[2]);
    let archive = archive_with(&[
        ("x/vert.spv", vert.as_slice()),
        ("x/frag.spv", frag.as_slice()),
    ]);
    let before = device.next_handle;
    let options = ShaderOptions { depth_test: false, lines: true, front_cull: false };
    let shader = Shader::new(&mut device, &archive, options).unwrap();
    assert_eq!(shader.handle, before);
    assert_eq!(shader.options, options);
    assert_eq!(device.next_handle, before + 1);
}

#[test]
fn corrupt_archive_is_invalid_file() {
    let mut device = Device::new(&test_gpu());
    let garbage = b"this is not a tar archive";
    let err = Shader::new(&mut device, garbage, ShaderOptions::default()).unwrap_err();
    assert_eq!(err, Error::InvalidFile);
}

#[test]
fn bad_binary_in_archive_is_invalid_spirv() {
    let mut device = Device::new(&test_gpu());
    let vert = spirv_bytes(&[1]);
    let archive = archive_with(&[
        ("vert.spv", vert.as_slice()),
        ("frag.spv", b"bad!".as_slice()),
    ]);
    let before = device.next_handle;
    let err = Shader::new(&mut device, &archive, ShaderOptions::default()).unwrap_err();
    assert_eq!(err, Error::InvalidSpirv);
    // nothing was registered on the failure path
    assert_eq!(device.next_handle, before);
}

#[test]
fn missing_entry_means_empty_source() {
    let vert = spirv_bytes(&[]);
    let archive = archive_with(&[("vert.spv", vert.as_slice())]);
    let (got_vert, got_frag) = shader_sources_from_archive(&archive).unwrap();
    assert_eq!(got_vert, vert);
    assert!(got_frag.is_empty());
}

#[test]
fn matching_is_by_whole_path_component() {
    let suffix: Vec<u8> = b"vert.spv".to_vec();
    // the file name must be exactly the suffix...
    assert!(component_is(&b"vert.spv".to_vec(), &suffix));
    assert!(component_is(&b"a/vert.spv".to_vec(), &suffix));
    assert!(component_is(&b"x/y/vert.spv".to_vec(), &suffix));
    // ...a longer file name merely ending in it does not count
    assert!(!component_is(&b"a.vert.spv".to_vec(), &suffix));
    assert!(!component_is(&b"myvert.spv".to_vec(), &suffix));
    assert!(!component_is(&b"vert.spv.bak".to_vec(), &suffix));
    assert!(!component_is(&b"rt.spv".to_vec(), &suffix));
    // the raw byte-suffix test underneath is looser
    assert!(bytes_end_with(&b"myvert.spv".to_vec(), &suffix));
    assert!(!bytes_end_with(&b"rt.spv".to_vec(), &suffix));
}

#[test]
fn shader_destruction_is_deferred_to_the_ledger() {
    let mut device = Device::new(&test_gpu());
    let vert = spirv_bytes(&[1]);
    let frag = spirv_bytes(&[2]);
    let archive = archive_with(&[
        ("x/vert.spv", vert.as_slice()),
        ("x/frag.spv", frag.as_slice()),
    ]);
    let shader = Shader::new(&mut device, &archive, ShaderOptions::default()).unwrap();
    let handle = shader.handle;
    shader.destroy(&mut device);
    let current = device.current_frame();
    let ledger = if current == 0 {
        &device.slot0.ledger
    } else {
        &device.slot1.ledger
    };
    assert_eq!(ledger.pipelines, vec![handle]);
}
