//! Plain-value records of what the modern API reported for one physical GPU.
//!
//! The platform layer performs the actual driver calls (adapter enumeration,
//! description queries, device creation, per-format capability queries) and
//! fills these records; a test fills them by hand to stand in for a stub
//! backend.  Every field is a plain value, so all logic that consumes them
//! is verified for every possible answer of the driver.

use vstd::prelude::*;
use crate::fmt::ModernFormat;
use crate::modes::RawMode;

verus! {

/// The description of a physical GPU, as the modern API reports it.
#[derive(Clone, Debug)]
pub struct AdapterInfo {
    pub vendor_id: u32,
    pub device_id: u32,
    pub subsys_id: u32,
    pub revision: u32,
    /// Human-readable device description, already decoded to bytes by the
    /// platform layer.
    pub description: Vec<u8>,
    pub dedicated_video_memory: u64,
    pub dedicated_system_memory: u64,
    pub shared_system_memory: u64,
    /// The adapter's stable 64-bit low-level identifier.
    pub luid: u64,
}

/// The monitor rectangle of an attached display, in desktop coordinates.
#[derive(Clone, Copy, Debug, PartialEq, Eq, Structural)]
pub struct MonitorRect {
    pub left: i32,
    pub top: i32,
    pub right: i32,
    pub bottom: i32,
}

/// The description of an adapter's primary output.
#[derive(Clone, Copy, Debug, PartialEq, Eq, Structural)]
pub struct OutputInfo {
    /// Opaque monitor handle; never 0 for a real monitor.
    pub monitor: u64,
    /// The desktop rectangle the output covers.
    pub desktop: MonitorRect,
}

/// The display modes an output reports for one modern format.
///
/// A format with no entry in the table stands for a mode-list query that
/// fails or reports nothing; the consumer remembers it as an empty list.
#[derive(Clone, Debug)]
pub struct ModeTableEntry {
    pub format: ModernFormat,
    pub modes: Vec<RawMode>,
}

/// What the adapter's primary output reported.
#[derive(Clone, Debug)]
pub struct OutputProbe {
    /// The output's description; absent when the description query failed.
    pub desc: Option<OutputInfo>,
    /// Display modes per modern format, as the output enumerates them.
    pub mode_table: Vec<ModeTableEntry>,
}

/// The capability bitmask the device reports for one modern format.
///
/// A format with no entry stands for a capability query that fails.
#[derive(Clone, Copy, Debug)]
pub struct FormatSupportEntry {
    pub format: ModernFormat,
    pub mask: u32,
}

/// The quality-level count the device reports for one format and sample
/// count.  A pair with no entry stands for a failed or unsupported query.
#[derive(Clone, Copy, Debug)]
pub struct MultisampleEntry {
    pub format: ModernFormat,
    pub sample_count: u32,
    pub quality_levels: u32,
}

/// What the capability-query device reported at creation.
#[derive(Clone, Debug)]
pub struct DeviceProbe {
    /// The negotiated feature level.
    pub feature_level: u32,
    pub format_support: Vec<FormatSupportEntry>,
    pub multisample: Vec<MultisampleEntry>,
}

/// Everything the modern API reported about one physical GPU.
#[derive(Clone, Debug)]
pub struct AdapterProbe {
    /// The GPU's description; absent when the description query failed.
    pub desc: Option<AdapterInfo>,
    /// The first attached output; absent for headless GPUs.
    pub output: Option<OutputProbe>,
    /// The capability-query device; absent when device creation failed.
    pub device: Option<DeviceProbe>,
}

} // verus!
