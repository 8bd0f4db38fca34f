//! Device types and the record a validated device-creation request
//! produces.
//!
//! The library decides everything about a creation request that does not
//! touch the platform: it validates the device type and ordinal, builds the
//! creation parameters, and says whether the process-wide floating-point
//! control word must be set up.  The platform layer performs those side
//! effects and hands the record to the device collaborator.

use vstd::prelude::*;

verus! {

/// Device types of the legacy API.  Only the hardware-accelerated type is
/// supported; the reference and software rasterizers are rejected.
#[derive(Clone, Copy, Debug, PartialEq, Eq, Structural)]
pub enum DeviceType {
    /// Hardware rasterization.
    Hal,
    /// Reference rasterizer.
    Reference,
    /// Software rasterizer.
    Software,
    /// Reference rasterizer without rendering output.
    NullRef,
}

/// Behavior flag: keep the FPU state the application set up instead of
/// switching to the state legacy applications expect.
pub const CREATE_FPU_PRESERVE: u32 = 0x2;

/// Behavior flag: create a single device spanning all adapters of a group.
pub const CREATE_ADAPTERGROUP_DEVICE: u32 = 0x400;

/// The original parameters of a device-creation request, as the legacy API
/// records them.
#[derive(Clone, Copy, Debug, PartialEq, Eq, Structural)]
pub struct DeviceCreationParameters {
    pub adapter_ordinal: u32,
    pub device_type: DeviceType,
    /// Opaque handle of the focus window.
    pub focus_window: u64,
    pub behavior_flags: u32,
}

/// A validated device-creation request: the creation parameters plus the
/// side effects the platform layer must perform before delegating to the
/// device collaborator.
#[derive(Clone, Copy, Debug, PartialEq, Eq, Structural)]
pub struct DeviceCreationRequest {
    pub params: DeviceCreationParameters,
    /// Whether the process-wide floating-point control word must be set to
    /// round-to-nearest, single precision, all exceptions masked.
    pub setup_fpu: bool,
    /// Whether the caller asked for a multi-adapter device group; the group
    /// is not supported and the request proceeds on a single adapter.
    pub adapter_group_requested: bool,
}

} // verus!
