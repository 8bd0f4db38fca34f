use d3d9to11::fmt::{is_depth_stencil_format, is_display_mode_format, to_modern, Format, ModernFormat};
use d3d9to11::modes::refresh_rate;
use d3d9to11::support::{
    mask_allows, ResourceType, SUPPORT_DEPTH_STENCIL, SUPPORT_MIP_AUTOGEN, SUPPORT_RENDER_TARGET,
    SUPPORT_TEXTURE2D, SUPPORT_TEXTURE3D, SUPPORT_TEXTURECUBE, SUPPORT_VERTEX_BUFFER,
    USAGE_AUTO_GEN_MIP_MAP, USAGE_DEPTH_STENCIL, USAGE_RENDER_TARGET,
};

#[test]
fn translation_of_color_formats() {
    assert_eq!(to_modern(Format::A8R8G8B8), ModernFormat::B8G8R8A8Unorm);
    assert_eq!(to_modern(Format::X8R8G8B8), ModernFormat::B8G8R8X8Unorm);
    assert_eq!(to_modern(Format::R5G6B5), ModernFormat::B5G6R5Unorm);
    assert_eq!(to_modern(Format::X1R5G5B5), ModernFormat::B5G5R5A1Unorm);
    assert_eq!(to_modern(Format::A1R5G5B5), ModernFormat::B5G5R5A1Unorm);
    assert_eq!(to_modern(Format::A2R10G10B10), ModernFormat::R10G10B10A2Unorm);
}

#[test]
fn translation_of_depth_formats() {
    assert_eq!(to_modern(Format::D16), ModernFormat::D16Unorm);
    assert_eq!(to_modern(Format::D24S8), ModernFormat::D24UnormS8Uint);
    assert_eq!(to_modern(Format::D24X8), ModernFormat::D24UnormS8Uint);
    assert_eq!(to_modern(Format::D32), ModernFormat::D32Float);
}

#[test]
fn translation_is_total_and_maps_unknown() {
    assert_eq!(to_modern(Format::Unknown), ModernFormat::Unknown);
    // A format with no modern equivalent maps to the defined unknown value.
    assert_eq!(to_modern(Format::R8G8B8), ModernFormat::Unknown);
}

#[test]
fn display_mode_format_set_is_closed() {
    let eligible = [
        Format::A8R8G8B8,
        Format::X8R8G8B8,
        Format::R5G6B5,
        Format::X1R5G5B5,
        Format::A1R5G5B5,
        Format::A2R10G10B10,
    ];
    for f in eligible {
        assert!(is_display_mode_format(f));
    }
    for f in [Format::Unknown, Format::A8, Format::Dxt1, Format::D24S8, Format::D16] {
        assert!(!is_display_mode_format(f));
    }
}

#[test]
fn depth_stencil_format_set_is_closed() {
    let eligible = [
        Format::D16Lockable,
        Format::D32,
        Format::D15S1,
        Format::D24S8,
        Format::D24X8,
        Format::D24X4S4,
        Format::D16,
        Format::D32FLockable,
        Format::D24FS8,
    ];
    for f in eligible {
        assert!(is_depth_stencil_format(f));
    }
    for f in [Format::A8R8G8B8, Format::X8R8G8B8, Format::Unknown, Format::Dxt5] {
        assert!(!is_depth_stencil_format(f));
    }
}

#[test]
fn refresh_rate_is_the_quotient() {
    assert_eq!(refresh_rate(60000, 1001), 59);
    assert_eq!(refresh_rate(60, 1), 60);
    assert_eq!(refresh_rate(144000, 1000), 144);
}

#[test]
fn refresh_rate_zero_denominator_reports_zero() {
    assert_eq!(refresh_rate(60000, 0), 0);
    assert_eq!(refresh_rate(0, 0), 0);
    assert_eq!(refresh_rate(u32::MAX, 0), 0);
}

#[test]
fn mask_checks_resource_kind_bit() {
    assert!(mask_allows(SUPPORT_TEXTURE2D, ResourceType::Surface, 0));
    assert!(mask_allows(SUPPORT_TEXTURE2D, ResourceType::Texture, 0));
    assert!(!mask_allows(SUPPORT_TEXTURE2D, ResourceType::Volume, 0));
    assert!(mask_allows(SUPPORT_TEXTURE3D, ResourceType::VolumeTexture, 0));
    assert!(mask_allows(SUPPORT_TEXTURECUBE, ResourceType::CubeTexture, 0));
    assert!(mask_allows(SUPPORT_VERTEX_BUFFER, ResourceType::VertexBuffer, 0));
    assert!(!mask_allows(SUPPORT_VERTEX_BUFFER, ResourceType::IndexBuffer, 0));
}

#[test]
fn mask_checks_each_requested_usage_independently() {
    let full = SUPPORT_TEXTURE2D | SUPPORT_MIP_AUTOGEN | SUPPORT_RENDER_TARGET
        | SUPPORT_DEPTH_STENCIL;
    let usage = USAGE_AUTO_GEN_MIP_MAP | USAGE_RENDER_TARGET | USAGE_DEPTH_STENCIL;
    assert!(mask_allows(full, ResourceType::Texture, usage));
    // Dropping any one required capability bit fails the combined request.
    assert!(!mask_allows(full & !SUPPORT_MIP_AUTOGEN, ResourceType::Texture, usage));
    assert!(!mask_allows(full & !SUPPORT_RENDER_TARGET, ResourceType::Texture, usage));
    assert!(!mask_allows(full & !SUPPORT_DEPTH_STENCIL, ResourceType::Texture, usage));
    // A flag that is not requested is not a failure.
    assert!(mask_allows(SUPPORT_TEXTURE2D, ResourceType::Texture, 0));
    assert!(mask_allows(
        SUPPORT_TEXTURE2D | SUPPORT_RENDER_TARGET,
        ResourceType::Texture,
        USAGE_RENDER_TARGET
    ));
}
