//! Pure translation between the legacy pixel-format enumeration and its
//! modern-API equivalents, plus the classification of formats as
//! display-mode-eligible or depth/stencil-eligible.

use vstd::prelude::*;

verus! {

/// Pixel formats of the legacy API that this layer understands.
///
/// Formats with no modern equivalent translate to `ModernFormat::Unknown`;
/// support queries on that value report "unsupported" rather than failing.
#[derive(Clone, Copy, Debug, PartialEq, Eq, Structural)]
pub enum Format {
    Unknown,
    R8G8B8,
    A8R8G8B8,
    X8R8G8B8,
    R5G6B5,
    X1R5G5B5,
    A1R5G5B5,
    A4R4G4B4,
    A8,
    X4R4G4B4,
    A2R10G10B10,
    L8,
    A8L8,
    Dxt1,
    Dxt2,
    Dxt3,
    Dxt4,
    Dxt5,
    D16Lockable,
    D32,
    D15S1,
    D24S8,
    D24X8,
    D24X4S4,
    D16,
    D32FLockable,
    D24FS8,
}

/// Texture formats of the modern API that the legacy formats translate to.
#[derive(Clone, Copy, Debug, PartialEq, Eq, Structural)]
pub enum ModernFormat {
    Unknown,
    B8G8R8A8Unorm,
    B8G8R8X8Unorm,
    B5G6R5Unorm,
    B5G5R5A1Unorm,
    B4G4R4A4Unorm,
    R10G10B10A2Unorm,
    A8Unorm,
    R8Unorm,
    R8G8Unorm,
    Bc1Unorm,
    Bc2Unorm,
    Bc3Unorm,
    D16Unorm,
    D24UnormS8Uint,
    D32Float,
}

/// The modern equivalent of a legacy format; total over `Format`.
pub open spec fn spec_to_modern(fmt: Format) -> ModernFormat {
    match fmt {
        Format::A8R8G8B8 => ModernFormat::B8G8R8A8Unorm,
        Format::X8R8G8B8 => ModernFormat::B8G8R8X8Unorm,
        Format::R5G6B5 => ModernFormat::B5G6R5Unorm,
        Format::X1R5G5B5 => ModernFormat::B5G5R5A1Unorm,
        Format::A1R5G5B5 => ModernFormat::B5G5R5A1Unorm,
        Format::A4R4G4B4 => ModernFormat::B4G4R4A4Unorm,
        Format::X4R4G4B4 => ModernFormat::B4G4R4A4Unorm,
        Format::A2R10G10B10 => ModernFormat::R10G10B10A2Unorm,
        Format::A8 => ModernFormat::A8Unorm,
        Format::L8 => ModernFormat::R8Unorm,
        Format::A8L8 => ModernFormat::R8G8Unorm,
        Format::Dxt1 => ModernFormat::Bc1Unorm,
        Format::Dxt2 => ModernFormat::Bc2Unorm,
        Format::Dxt3 => ModernFormat::Bc2Unorm,
        Format::Dxt4 => ModernFormat::Bc3Unorm,
        Format::Dxt5 => ModernFormat::Bc3Unorm,
        Format::D16 => ModernFormat::D16Unorm,
        Format::D16Lockable => ModernFormat::D16Unorm,
        Format::D15S1 => ModernFormat::D24UnormS8Uint,
        Format::D24S8 => ModernFormat::D24UnormS8Uint,
        Format::D24X8 => ModernFormat::D24UnormS8Uint,
        Format::D24X4S4 => ModernFormat::D24UnormS8Uint,
        Format::D24FS8 => ModernFormat::D24UnormS8Uint,
        Format::D32 => ModernFormat::D32Float,
        Format::D32FLockable => ModernFormat::D32Float,
        _ => ModernFormat::Unknown,
    }
}

/// Translates a legacy format to its modern equivalent.
pub fn to_modern(fmt: Format) -> (r: ModernFormat)
    ensures
        r == spec_to_modern(fmt),
{
    match fmt {
        Format::A8R8G8B8 => ModernFormat::B8G8R8A8Unorm,
        Format::X8R8G8B8 => ModernFormat::B8G8R8X8Unorm,
        Format::R5G6B5 => ModernFormat::B5G6R5Unorm,
        Format::X1R5G5B5 => ModernFormat::B5G5R5A1Unorm,
        Format::A1R5G5B5 => ModernFormat::B5G5R5A1Unorm,
        Format::A4R4G4B4 => ModernFormat::B4G4R4A4Unorm,
        Format::X4R4G4B4 => ModernFormat::B4G4R4A4Unorm,
        Format::A2R10G10B10 => ModernFormat::R10G10B10A2Unorm,
        Format::A8 => ModernFormat::A8Unorm,
        Format::L8 => ModernFormat::R8Unorm,
        Format::A8L8 => ModernFormat::R8G8Unorm,
        Format::Dxt1 => ModernFormat::Bc1Unorm,
        Format::Dxt2 => ModernFormat::Bc2Unorm,
        Format::Dxt3 => ModernFormat::Bc2Unorm,
        Format::Dxt4 => ModernFormat::Bc3Unorm,
        Format::Dxt5 => ModernFormat::Bc3Unorm,
        Format::D16 => ModernFormat::D16Unorm,
        Format::D16Lockable => ModernFormat::D16Unorm,
        Format::D15S1 => ModernFormat::D24UnormS8Uint,
        Format::D24S8 => ModernFormat::D24UnormS8Uint,
        Format::D24X8 => ModernFormat::D24UnormS8Uint,
        Format::D24X4S4 => ModernFormat::D24UnormS8Uint,
        Format::D24FS8 => ModernFormat::D24UnormS8Uint,
        Format::D32 => ModernFormat::D32Float,
        Format::D32FLockable => ModernFormat::D32Float,
        _ => ModernFormat::Unknown,
    }
}

/// True only for the closed set of standard 16/32-bit RGB formats that
/// legacy display-mode enumeration may use.
pub open spec fn spec_is_display_mode_format(fmt: Format) -> bool {
    match fmt {
        Format::A8R8G8B8 => true,
        Format::X8R8G8B8 => true,
        Format::R5G6B5 => true,
        Format::X1R5G5B5 => true,
        Format::A1R5G5B5 => true,
        Format::A2R10G10B10 => true,
        _ => false,
    }
}

/// Checks whether legacy display-mode enumeration may use this format.
pub fn is_display_mode_format(fmt: Format) -> (r: bool)
    ensures
        r == spec_is_display_mode_format(fmt),
{
    match fmt {
        Format::A8R8G8B8 => true,
        Format::X8R8G8B8 => true,
        Format::R5G6B5 => true,
        Format::X1R5G5B5 => true,
        Format::A1R5G5B5 => true,
        Format::A2R10G10B10 => true,
        _ => false,
    }
}

/// True only for the closed set of depth/stencil formats the legacy API
/// defines.
pub open spec fn spec_is_depth_stencil_format(fmt: Format) -> bool {
    match fmt {
        Format::D16Lockable => true,
        Format::D32 => true,
        Format::D15S1 => true,
        Format::D24S8 => true,
        Format::D24X8 => true,
        Format::D24X4S4 => true,
        Format::D16 => true,
        Format::D32FLockable => true,
        Format::D24FS8 => true,
        _ => false,
    }
}

/// Checks whether the format is one of the legacy depth/stencil formats.
pub fn is_depth_stencil_format(fmt: Format) -> (r: bool)
    ensures
        r == spec_is_depth_stencil_format(fmt),
{
    match fmt {
        Format::D16Lockable => true,
        Format::D32 => true,
        Format::D15S1 => true,
        Format::D24S8 => true,
        Format::D24X8 => true,
        Format::D24X4S4 => true,
        Format::D16 => true,
        Format::D32FLockable => true,
        Format::D24FS8 => true,
        _ => false,
    }
}

} // verus!
