use d3d9to11::adapter::Adapter;
use d3d9to11::backend::{
    AdapterInfo, AdapterProbe, DeviceProbe, FormatSupportEntry, ModeTableEntry, MonitorRect,
    MultisampleEntry, OutputInfo, OutputProbe,
};
use d3d9to11::modes::RawMode;
use d3d9to11::error::Error;
use d3d9to11::fmt::{Format, ModernFormat};
use d3d9to11::support::{
    ResourceType, SUPPORT_RENDER_TARGET, SUPPORT_TEXTURE2D,
    USAGE_AUTO_GEN_MIP_MAP, USAGE_DEPTH_STENCIL, USAGE_RENDER_TARGET,
};

const MIB: u64 = 1024 * 1024;

fn stub_info() -> AdapterInfo {
    AdapterInfo {
        vendor_id: 0x10DE,
        device_id: 0x2684,
        subsys_id: 0x0042,
        revision: 0xA1,
        description: b"Stub GPU".to_vec(),
        dedicated_video_memory: 256 * MIB,
        dedicated_system_memory: 0,
        shared_system_memory: 64 * MIB,
        luid: 0xDEAD_BEEF,
    }
}

fn stub_output(modes: Vec<ModeTableEntry>) -> OutputProbe {
    OutputProbe {
        desc: Some(OutputInfo {
            monitor: 0x1234,
            desktop: MonitorRect { left: 0, top: 0, right: 1920, bottom: 1080 },
        }),
        mode_table: modes,
    }
}

fn stub_device() -> DeviceProbe {
    DeviceProbe { feature_level: 0xB000, format_support: Vec::new(), multisample: Vec::new() }
}

fn raw(width: u32, height: u32, num: u32, den: u32) -> RawMode {
    RawMode { width, height, refresh_numerator: num, refresh_denominator: den }
}

fn full_probe() -> AdapterProbe {
    let modes = vec![ModeTableEntry {
        format: ModernFormat::B8G8R8X8Unorm,
        modes: vec![raw(800, 600, 60000, 1001), raw(1024, 768, 60, 1)],
    }];
    AdapterProbe {
        desc: Some(stub_info()),
        output: Some(stub_output(modes)),
        device: Some(stub_device()),
    }
}

#[test]
fn construction_fails_without_description() {
    let probe = AdapterProbe { desc: None, output: None, device: Some(stub_device()) };
    let r = Adapter::new(0, probe);
    assert!(matches!(r, Err(Error::AdapterInitFailed)));
}

#[test]
fn construction_fails_without_capability_device() {
    let probe = AdapterProbe { desc: Some(stub_info()), output: None, device: None };
    let r = Adapter::new(0, probe);
    assert!(matches!(r, Err(Error::DeviceCreateFailed)));
}

#[test]
fn headless_adapter_is_legitimate() {
    let probe = AdapterProbe { desc: Some(stub_info()), output: None, device: Some(stub_device()) };
    let mut a = Adapter::new(0, probe).unwrap();
    assert_eq!(a.monitor(), 0);
    assert_eq!(a.mode_count(Format::X8R8G8B8), 0);
    assert!(a.mode(Format::X8R8G8B8, 0).is_none());
}

#[test]
fn non_display_format_has_no_modes() {
    let mut a = Adapter::new(0, full_probe()).unwrap();
    assert_eq!(a.mode_count(Format::D24S8), 0);
    for i in [0u32, 1, 2, u32::MAX] {
        assert!(a.mode(Format::D24S8, i).is_none());
    }
    // The early exit never consulted the output.
    assert_eq!(a.mode_query_count(), 0);
}

#[test]
fn mode_count_and_modes_are_read_from_the_output() {
    let mut a = Adapter::new(0, full_probe()).unwrap();
    assert_eq!(a.mode_count(Format::X8R8G8B8), 2);
    let m0 = a.mode(Format::X8R8G8B8, 0).unwrap();
    assert_eq!(m0.width, 800);
    assert_eq!(m0.height, 600);
    assert_eq!(m0.refresh_rate, 59);
    assert_eq!(m0.format, Format::X8R8G8B8);
    let m1 = a.mode(Format::X8R8G8B8, 1).unwrap();
    assert_eq!(m1.refresh_rate, 60);
    assert!(a.mode(Format::X8R8G8B8, 2).is_none());
}

#[test]
fn mode_cache_is_idempotent() {
    let mut a = Adapter::new(0, full_probe()).unwrap();
    let first = a.mode_count(Format::X8R8G8B8);
    let queries_after_first = a.mode_query_count();
    let second = a.mode_count(Format::X8R8G8B8);
    assert_eq!(first, second);
    // The second call answered from the cache and did not re-query.
    assert_eq!(a.mode_query_count(), queries_after_first);
    assert_eq!(queries_after_first, 1);
}

#[test]
fn unsupported_format_is_cached_as_empty_and_not_retried() {
    let mut a = Adapter::new(0, full_probe()).unwrap();
    // The output reports nothing for this format; the lookup is remembered.
    assert_eq!(a.mode_count(Format::R5G6B5), 0);
    assert_eq!(a.mode_query_count(), 1);
    assert_eq!(a.mode_count(Format::R5G6B5), 0);
    assert_eq!(a.mode_query_count(), 1);
    // A different format is its own lookup.
    assert_eq!(a.mode_count(Format::X8R8G8B8), 2);
    assert_eq!(a.mode_query_count(), 2);
}

#[test]
fn zero_denominator_mode_reports_rate_zero() {
    let modes = vec![ModeTableEntry {
        format: ModernFormat::B8G8R8A8Unorm,
        modes: vec![raw(1920, 1080, 60, 0)],
    }];
    let probe = AdapterProbe {
        desc: Some(stub_info()),
        output: Some(stub_output(modes)),
        device: Some(stub_device()),
    };
    let mut a = Adapter::new(0, probe).unwrap();
    let m = a.mode(Format::A8R8G8B8, 0).unwrap();
    assert_eq!(m.refresh_rate, 0);
}

#[test]
fn failed_capability_query_reports_unsupported_everywhere() {
    // No format-support entries at all: every query fails.
    let mut a = Adapter::new(0, full_probe()).unwrap();
    a.format_support = Vec::new();
    let kinds = [
        ResourceType::Surface,
        ResourceType::Volume,
        ResourceType::Texture,
        ResourceType::VolumeTexture,
        ResourceType::CubeTexture,
        ResourceType::VertexBuffer,
        ResourceType::IndexBuffer,
    ];
    let usages = [
        0,
        USAGE_RENDER_TARGET,
        USAGE_DEPTH_STENCIL,
        USAGE_AUTO_GEN_MIP_MAP,
        USAGE_RENDER_TARGET | USAGE_DEPTH_STENCIL | USAGE_AUTO_GEN_MIP_MAP,
    ];
    for kind in kinds {
        for usage in usages {
            assert!(!a.is_format_supported(Format::A8R8G8B8, kind, usage));
        }
    }
}

#[test]
fn format_support_applies_the_reported_mask() {
    let mut a = Adapter::new(0, full_probe()).unwrap();
    a.format_support = vec![FormatSupportEntry {
        format: ModernFormat::B8G8R8A8Unorm,
        mask: SUPPORT_TEXTURE2D | SUPPORT_RENDER_TARGET,
    }];
    assert!(a.is_format_supported(Format::A8R8G8B8, ResourceType::Texture, 0));
    assert!(a.is_format_supported(Format::A8R8G8B8, ResourceType::Texture, USAGE_RENDER_TARGET));
    assert!(!a.is_format_supported(Format::A8R8G8B8, ResourceType::Volume, 0));
    assert!(!a.is_format_supported(
        Format::A8R8G8B8,
        ResourceType::Texture,
        USAGE_AUTO_GEN_MIP_MAP
    ));
    // A format without an entry behaves as a failed query.
    assert!(!a.is_format_supported(Format::R5G6B5, ResourceType::Texture, 0));
}

#[test]
fn multisample_quality_comes_from_the_device_table() {
    let mut a = Adapter::new(0, full_probe()).unwrap();
    a.multisample = vec![MultisampleEntry {
        format: ModernFormat::B8G8R8A8Unorm,
        sample_count: 4,
        quality_levels: 8,
    }];
    assert_eq!(a.is_multisampling_supported(Format::A8R8G8B8, 4), 8);
    // An absent pair — a failed or unsupported query — reports 0.
    assert_eq!(a.is_multisampling_supported(Format::A8R8G8B8, 8), 0);
    assert_eq!(a.is_multisampling_supported(Format::R5G6B5, 4), 0);
}

#[test]
fn identifier_passes_identity_through_and_synthesizes_names() {
    let a = Adapter::new(3, full_probe()).unwrap();
    let id = a.identifier();
    assert_eq!(id.vendor_id, 0x10DE);
    assert_eq!(id.device_id, 0x2684);
    assert_eq!(id.subsys_id, 0x0042);
    assert_eq!(id.revision, 0xA1);
    assert_eq!(id.driver_version, 1);
    assert_eq!(id.whql_level, 1);
    assert_eq!(id.device_identifier.low, 0xDEAD_BEEF);
    assert_eq!(id.device_identifier.high, 3);

    assert_eq!(id.driver.len(), 512);
    assert_eq!(&id.driver[..18], b"D3D 9-to-11 Driver");
    assert!(id.driver[18..].iter().all(|&b| b == 0));

    assert_eq!(id.description.len(), 512);
    let expected = b"Stub GPU (D3D 9-to-11 Device)";
    assert_eq!(&id.description[..expected.len()], expected);
    assert!(id.description[expected.len()..].iter().all(|&b| b == 0));

    assert_eq!(id.device_name.len(), 32);
    assert_eq!(&id.device_name[..8], b"DISPLAY3");
    assert!(id.device_name[8..].iter().all(|&b| b == 0));
}

#[test]
fn identifier_truncates_long_descriptions_and_keeps_the_terminator() {
    let mut info = stub_info();
    info.description = vec![b'A'; 600];
    let probe = AdapterProbe { desc: Some(info), output: None, device: Some(stub_device()) };
    let a = Adapter::new(0, probe).unwrap();
    let id = a.identifier();
    assert_eq!(id.description.len(), 512);
    assert!(id.description[..511].iter().all(|&b| b == b'A'));
    assert_eq!(id.description[511], 0);
}

#[test]
fn available_memory_sums_and_rounds_down_to_mebibytes() {
    let a = Adapter::new(0, full_probe()).unwrap();
    assert_eq!(a.available_memory(), (320 * MIB) as u32);

    let mut info = stub_info();
    info.dedicated_video_memory = 5 * MIB + 524_288;
    info.dedicated_system_memory = 0;
    info.shared_system_memory = 0;
    let probe = AdapterProbe { desc: Some(info), output: None, device: Some(stub_device()) };
    let b = Adapter::new(0, probe).unwrap();
    assert_eq!(b.available_memory(), (5 * MIB) as u32);
}

#[test]
fn available_memory_saturates_to_the_32_bit_range() {
    let mut info = stub_info();
    info.dedicated_video_memory = u64::MAX;
    info.dedicated_system_memory = u64::MAX;
    info.shared_system_memory = u64::MAX;
    let probe = AdapterProbe { desc: Some(info), output: None, device: Some(stub_device()) };
    let a = Adapter::new(0, probe).unwrap();
    assert_eq!(a.available_memory(), u32::MAX);
}

#[test]
fn caps_reports_the_fixed_capability_set() {
    let a = Adapter::new(5, full_probe()).unwrap();
    let caps = a.caps();
    assert_eq!(caps.adapter_ordinal, 5);
    assert_eq!(caps.master_adapter_ordinal, 5);
    assert_eq!(caps.caps, 0);
    assert_eq!(caps.caps2, 0x7012_0000);
    assert_eq!(caps.caps3, 0x3A0);
    // The power-of-two restriction bits are cleared; every other texture
    // capability bit is set.
    assert_eq!(caps.texture_caps, 0xFFD9_FEFD);
    assert_eq!(caps.dev_caps, u32::MAX);
    assert_eq!(caps.max_texture_width, 16384);
    assert_eq!(caps.max_texture_height, 16384);
    assert_eq!(caps.max_volume_extent, 2048);
    assert_eq!(caps.max_anisotropy, 16);
    assert_eq!(caps.max_simultaneous_textures, 8);
    assert_eq!(caps.num_simultaneous_rts, 8);
    assert_eq!(caps.max_streams, 16);
    assert_eq!(caps.vertex_shader_version, 0xFFFE_0300);
    assert_eq!(caps.pixel_shader_version, 0xFFFF_0300);
    assert_eq!(caps.max_vertex_shader_const, 65536);
    assert_eq!(caps.number_of_adapters_in_group, 1);
    assert_eq!(caps.adapter_ordinal_in_group, 0);
    assert_eq!(caps.vs20_caps.num_temps, 16384);
    assert_eq!(caps.max_vertex_shader_30_instruction_slots, 32768);
    assert_eq!(caps.max_pixel_shader_30_instruction_slots, 32768);
}

#[test]
fn monitor_comes_from_the_output_description() {
    let a = Adapter::new(0, full_probe()).unwrap();
    assert_eq!(a.monitor(), 0x1234);
    // An output whose description query failed degrades to the null handle.
    let probe = AdapterProbe {
        desc: Some(stub_info()),
        output: Some(OutputProbe { desc: None, mode_table: Vec::new() }),
        device: Some(stub_device()),
    };
    let b = Adapter::new(0, probe).unwrap();
    assert_eq!(b.monitor(), 0);
}

#[test]
fn device_name_renders_multi_digit_ordinals() {
    let a = Adapter::new(107, full_probe()).unwrap();
    let id = a.identifier();
    assert_eq!(&id.device_name[..10], b"DISPLAY107");
    assert_eq!(id.device_name[10], 0);
    assert_eq!(id.device_identifier.high, 107);
}

#[test]
fn format_without_modern_equivalent_is_unsupported() {
    // Even a support-table entry for the unknown modern value cannot make
    // a format with no modern equivalent count as supported.
    let mut a = Adapter::new(0, full_probe()).unwrap();
    a.format_support = vec![FormatSupportEntry {
        format: ModernFormat::Unknown,
        mask: u32::MAX,
    }];
    let kinds = [
        ResourceType::Surface,
        ResourceType::Volume,
        ResourceType::Texture,
        ResourceType::VolumeTexture,
        ResourceType::CubeTexture,
        ResourceType::VertexBuffer,
        ResourceType::IndexBuffer,
    ];
    for kind in kinds {
        assert!(!a.is_format_supported(Format::R8G8B8, kind, 0));
        assert!(!a.is_format_supported(Format::Unknown, kind, USAGE_RENDER_TARGET));
    }
}

#[test]
fn format_without_modern_equivalent_has_no_multisampling() {
    let mut a = Adapter::new(0, full_probe()).unwrap();
    a.multisample = vec![MultisampleEntry {
        format: ModernFormat::Unknown,
        sample_count: 4,
        quality_levels: 16,
    }];
    assert_eq!(a.is_multisampling_supported(Format::R8G8B8, 4), 0);
    assert_eq!(a.is_multisampling_supported(Format::Unknown, 4), 0);
}
