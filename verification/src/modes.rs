//! Display-mode data and the refresh-rate rule.

use vstd::prelude::*;
use crate::fmt::Format;

verus! {

/// A display mode as the modern API enumerates it: the refresh rate is a
/// rational number.
#[derive(Clone, Copy, Debug, PartialEq, Eq, Structural)]
pub struct RawMode {
    pub width: u32,
    pub height: u32,
    pub refresh_numerator: u32,
    pub refresh_denominator: u32,
}

/// A display mode as the legacy API reports it: the refresh rate is a whole
/// number of hertz.
#[derive(Clone, Copy, Debug, PartialEq, Eq, Structural)]
pub struct DisplayMode {
    pub width: u32,
    pub height: u32,
    pub refresh_rate: u32,
    pub format: Format,
}

/// The reported refresh rate of a rational rate: the quotient, with the
/// explicit rule that a zero denominator yields 0 rather than an error.
pub open spec fn spec_refresh_rate(numerator: u32, denominator: u32) -> u32 {
    if denominator == 0 {
        0u32
    } else {
        (numerator / denominator) as u32
    }
}

/// Computes the refresh rate the legacy API reports for a rational rate.
/// A zero denominator yields 0; the division never faults.
pub fn refresh_rate(numerator: u32, denominator: u32) -> (r: u32)
    ensures
        r == spec_refresh_rate(numerator, denominator),
{
    if denominator == 0 {
        0
    } else {
        numerator / denominator
    }
}

/// The legacy display mode derived from a raw mode for a requested format.
pub open spec fn spec_legacy_mode(raw: RawMode, fmt: Format) -> DisplayMode {
    DisplayMode {
        width: raw.width,
        height: raw.height,
        refresh_rate: spec_refresh_rate(raw.refresh_numerator, raw.refresh_denominator),
        format: fmt,
    }
}

/// Fills the legacy mode structure from a raw mode.
pub fn legacy_mode(raw: &RawMode, fmt: Format) -> (r: DisplayMode)
    ensures
        r == spec_legacy_mode(*raw, fmt),
{
    DisplayMode {
        width: raw.width,
        height: raw.height,
        refresh_rate: refresh_rate(raw.refresh_numerator, raw.refresh_denominator),
        format: fmt,
    }
}

} // verus!
