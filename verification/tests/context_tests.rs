use d3d9to11::backend::{
    AdapterInfo, AdapterProbe, DeviceProbe, ModeTableEntry, MonitorRect, MultisampleEntry,
    OutputInfo, OutputProbe,
};
use d3d9to11::modes::RawMode;
use d3d9to11::context::Context;
use d3d9to11::device::{DeviceType, CREATE_ADAPTERGROUP_DEVICE, CREATE_FPU_PRESERVE};
use d3d9to11::error::Error;
use d3d9to11::fmt::{Format, ModernFormat};

fn gpu_info(vendor: u32, device: u32, luid: u64) -> AdapterInfo {
    AdapterInfo {
        vendor_id: vendor,
        device_id: device,
        subsys_id: 9,
        revision: 2,
        description: b"Stub GPU".to_vec(),
        dedicated_video_memory: 512 * 1024 * 1024,
        dedicated_system_memory: 0,
        shared_system_memory: 0,
        luid,
    }
}

fn gpu_probe(vendor: u32, device: u32, luid: u64) -> AdapterProbe {
    let modes = vec![ModeTableEntry {
        format: ModernFormat::B8G8R8X8Unorm,
        modes: vec![RawMode { width: 1920, height: 1080, refresh_numerator: 60, refresh_denominator: 1 }],
    }];
    AdapterProbe {
        desc: Some(gpu_info(vendor, device, luid)),
        output: Some(OutputProbe {
            desc: Some(OutputInfo {
                monitor: 0xBEEF,
                desktop: MonitorRect { left: 0, top: 0, right: 1920, bottom: 1080 },
            }),
            mode_table: modes,
        }),
        device: Some(DeviceProbe {
            feature_level: 0xB000,
            format_support: Vec::new(),
            multisample: Vec::new(),
        }),
    }
}

fn two_gpu_context() -> Context {
    let probes = vec![gpu_probe(0x10DE, 0x2684, 0x11), gpu_probe(0x1002, 0x744C, 0x22)];
    Context::new(Some(probes)).unwrap()
}

#[test]
fn factory_failure_is_fatal() {
    let r = Context::new(None);
    assert!(matches!(r, Err(Error::FactoryCreateFailed)));
}

#[test]
fn two_stub_gpus_yield_two_adapters() {
    let ctx = two_gpu_context();
    assert_eq!(ctx.get_adapter_count(), 2);
    let id0 = ctx.get_adapter_identifier(0, 0).unwrap();
    assert_eq!(id0.vendor_id, 0x10DE);
    assert_eq!(id0.device_id, 0x2684);
    let id1 = ctx.get_adapter_identifier(1, 0).unwrap();
    assert_eq!(id1.vendor_id, 0x1002);
    assert_eq!(id1.device_id, 0x744C);
}

#[test]
fn reference_rasterizer_is_rejected_and_hardware_accepted() {
    let ctx = two_gpu_context();
    assert_eq!(
        ctx.check_device_type(0, DeviceType::Reference, Format::X8R8G8B8, Format::X8R8G8B8, 1),
        Error::InvalidCall
    );
    assert_eq!(
        ctx.check_device_type(0, DeviceType::Software, Format::X8R8G8B8, Format::X8R8G8B8, 1),
        Error::InvalidCall
    );
    assert_eq!(
        ctx.check_device_type(0, DeviceType::Hal, Format::X8R8G8B8, Format::X8R8G8B8, 1),
        Error::Success
    );
    // Hardware acceleration is promised only for display-mode formats.
    assert_eq!(
        ctx.check_device_type(0, DeviceType::Hal, Format::D24S8, Format::X8R8G8B8, 1),
        Error::NotAvailable
    );
}

#[test]
fn multisample_check_with_no_quality_levels_reports_not_available() {
    let ctx = two_gpu_context();
    let (status, quality) =
        ctx.check_device_multi_sample_type(0, DeviceType::Hal, Format::A8R8G8B8, 1, 4);
    assert_eq!(status, Error::NotAvailable);
    assert_eq!(quality, 0);
}

#[test]
fn multisample_check_hands_the_quality_level_out() {
    let probes = vec![AdapterProbe {
        device: Some(DeviceProbe {
            feature_level: 0xB000,
            format_support: Vec::new(),
            multisample: vec![MultisampleEntry {
                format: ModernFormat::B8G8R8A8Unorm,
                sample_count: 4,
                quality_levels: 8,
            }],
        }),
        ..gpu_probe(0x10DE, 0x2684, 0x11)
    }];
    let ctx = Context::new(Some(probes)).unwrap();
    let (status, quality) =
        ctx.check_device_multi_sample_type(0, DeviceType::Hal, Format::A8R8G8B8, 1, 4);
    assert_eq!(status, Error::Success);
    assert_eq!(quality, 8);
    // Validation failures report the invalid-call code and leave quality 0.
    let (status, quality) =
        ctx.check_device_multi_sample_type(9, DeviceType::Hal, Format::A8R8G8B8, 1, 4);
    assert_eq!(status, Error::InvalidCall);
    assert_eq!(quality, 0);
}

#[test]
fn adapter_ordinals_are_dense_and_bad_ordinals_fail() {
    let ctx = two_gpu_context();
    let n = ctx.get_adapter_count();
    for i in 0..n {
        assert!(ctx.check_adapter(i).is_ok());
    }
    for i in [n, n + 1, 100, u32::MAX] {
        assert!(matches!(ctx.check_adapter(i), Err(Error::InvalidCall)));
    }
}

#[test]
fn failed_adapter_is_skipped_and_the_list_reindexed() {
    let probes = vec![
        gpu_probe(0x10DE, 0x2684, 0x11),
        AdapterProbe { desc: None, output: None, device: None },
        gpu_probe(0x1002, 0x744C, 0x22),
    ];
    let ctx = Context::new(Some(probes)).unwrap();
    assert_eq!(ctx.get_adapter_count(), 2);
    // The third probe's GPU is re-indexed densely to ordinal 1.
    let id1 = ctx.get_adapter_identifier(1, 0).unwrap();
    assert_eq!(id1.vendor_id, 0x1002);
    assert_eq!(&id1.device_name[..8], b"DISPLAY1");
    assert!(ctx.check_adapter(2).is_err());
}

#[test]
fn mode_queries_forward_to_the_adapter() {
    let mut ctx = two_gpu_context();
    assert_eq!(ctx.get_adapter_mode_count(0, Format::X8R8G8B8), 1);
    let m = ctx.enum_adapter_modes(0, Format::X8R8G8B8, 0).unwrap();
    assert_eq!((m.width, m.height, m.refresh_rate), (1920, 1080, 60));
    assert_eq!(m.format, Format::X8R8G8B8);
    assert!(matches!(
        ctx.enum_adapter_modes(0, Format::X8R8G8B8, 1),
        Err(Error::NotAvailable)
    ));
    assert!(matches!(
        ctx.enum_adapter_modes(7, Format::X8R8G8B8, 0),
        Err(Error::InvalidCall)
    ));
    // An invalid ordinal reports zero modes rather than an error.
    assert_eq!(ctx.get_adapter_mode_count(7, Format::X8R8G8B8), 0);
}

#[test]
fn current_display_mode_comes_from_the_monitor_rectangle() {
    let ctx = two_gpu_context();
    let rect = MonitorRect { left: -1920, top: 0, right: 1920, bottom: 1200 };
    let mode = ctx.get_adapter_display_mode(0, rect);
    assert_eq!(mode.width, 3840);
    assert_eq!(mode.height, 1200);
    assert_eq!(mode.refresh_rate, 0);
    assert_eq!(mode.format, Format::X8R8G8B8);
}

#[test]
fn depth_stencil_match_checks_only_the_depth_format() {
    let ctx = two_gpu_context();
    assert_eq!(
        ctx.check_depth_stencil_match(0, DeviceType::Hal, Format::X8R8G8B8, Format::A8R8G8B8, Format::D24S8),
        Error::Success
    );
    assert_eq!(
        ctx.check_depth_stencil_match(0, DeviceType::Hal, Format::X8R8G8B8, Format::A8R8G8B8, Format::A8R8G8B8),
        Error::NotAvailable
    );
    assert_eq!(
        ctx.check_depth_stencil_match(5, DeviceType::Hal, Format::X8R8G8B8, Format::A8R8G8B8, Format::D24S8),
        Error::InvalidCall
    );
}

#[test]
fn format_conversion_is_permissive() {
    let ctx = two_gpu_context();
    assert_eq!(
        ctx.check_device_format_conversion(0, DeviceType::Hal, Format::R5G6B5, Format::A8R8G8B8),
        Error::Success
    );
    assert_eq!(
        ctx.check_device_format_conversion(0, DeviceType::Reference, Format::R5G6B5, Format::A8R8G8B8),
        Error::InvalidCall
    );
    assert_eq!(
        ctx.check_device_format_conversion(4, DeviceType::Hal, Format::R5G6B5, Format::A8R8G8B8),
        Error::InvalidCall
    );
}

#[test]
fn device_caps_are_forwarded_for_valid_arguments() {
    let ctx = two_gpu_context();
    let caps = ctx.get_device_caps(1, DeviceType::Hal).unwrap();
    assert_eq!(caps.adapter_ordinal, 1);
    assert!(matches!(ctx.get_device_caps(2, DeviceType::Hal), Err(Error::InvalidCall)));
    assert!(matches!(ctx.get_device_caps(0, DeviceType::Reference), Err(Error::InvalidCall)));
}

#[test]
fn adapter_monitor_is_null_for_bad_ordinals() {
    let ctx = two_gpu_context();
    assert_eq!(ctx.get_adapter_monitor(0), 0xBEEF);
    assert_eq!(ctx.get_adapter_monitor(2), 0);
}

#[test]
fn software_device_registration_validates_the_pointer_only() {
    let ctx = two_gpu_context();
    assert_eq!(ctx.register_software_device(0), Error::InvalidCall);
    assert_eq!(ctx.register_software_device(0x1000), Error::Success);
}

#[test]
fn device_creation_request_validates_and_decides() {
    let ctx = two_gpu_context();
    assert!(matches!(
        ctx.create_device_request(0, DeviceType::Reference, 0x500, 0),
        Err(Error::InvalidCall)
    ));
    assert!(matches!(
        ctx.create_device_request(2, DeviceType::Hal, 0x500, 0),
        Err(Error::InvalidCall)
    ));
    let req = ctx.create_device_request(1, DeviceType::Hal, 0x500, CREATE_ADAPTERGROUP_DEVICE).unwrap();
    assert_eq!(req.params.adapter_ordinal, 1);
    assert_eq!(req.params.device_type, DeviceType::Hal);
    assert_eq!(req.params.focus_window, 0x500);
    assert_eq!(req.params.behavior_flags, CREATE_ADAPTERGROUP_DEVICE);
    assert!(req.setup_fpu);
    assert!(req.adapter_group_requested);
    let req = ctx.create_device_request(0, DeviceType::Hal, 0, CREATE_FPU_PRESERVE).unwrap();
    assert!(!req.setup_fpu);
    assert!(!req.adapter_group_requested);
}

#[test]
fn format_check_fails_closed_when_the_device_reports_nothing() {
    let ctx = two_gpu_context();
    // The stub capability device has no support entries: every per-format
    // query fails, and the check degrades to "not available".
    assert_eq!(
        ctx.check_device_format(
            0,
            DeviceType::Hal,
            Format::X8R8G8B8,
            0,
            d3d9to11::support::ResourceType::Texture,
            Format::A8R8G8B8
        ),
        Error::NotAvailable
    );
}

#[test]
fn degenerate_monitor_rectangle_reports_zero_extent() {
    let ctx = two_gpu_context();
    let rect = MonitorRect { left: 100, top: 50, right: 100, bottom: 50 };
    let mode = ctx.get_adapter_display_mode(0, rect);
    assert_eq!(mode.width, 0);
    assert_eq!(mode.height, 0);
}
