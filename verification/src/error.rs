//! Status codes surfaced at the legacy API boundary, together with the
//! construction-time failures against the modern API.

use vstd::prelude::*;

verus! {

/// Result codes of the legacy surface and of object construction.
///
/// `Success` exists because the legacy API reports every outcome, including
/// the good one, through a single status value.  The `*Failed` variants are
/// fatal to the construction of the owning object; `InvalidCall` and
/// `NotAvailable` are ordinary legacy-facing validation results.
#[derive(Clone, Copy, Debug, PartialEq, Eq, Structural)]
pub enum Error {
    /// The call succeeded.
    Success,
    /// An argument failed validation (bad ordinal, bad device type, null
    /// required pointer).
    InvalidCall,
    /// The queried feature combination is not supported.
    NotAvailable,
    /// The requested item does not exist.
    NotFound,
    /// Querying the physical GPU's description failed during adapter
    /// construction.
    AdapterInitFailed,
    /// Creating the capability-query device failed during adapter
    /// construction.
    DeviceCreateFailed,
    /// Creating the adapter-enumeration factory failed during context
    /// construction.
    FactoryCreateFailed,
}

} // verus!
