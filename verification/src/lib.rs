//! Adapter enumeration and capability translation for a legacy graphics API
//! emulated on top of a modern, explicit graphics API.
//!
//! The crate models the decision core of the emulation layer: discovering
//! physical GPUs, building legacy-compatible descriptions of each of them
//! (identity, display modes, format support, multisampling levels, feature
//! caps), and validating device-creation requests.  Everything the modern
//! API reports is handed to this crate as plain values (see `backend`), so
//! the whole capability logic is verified; the platform layer that performs
//! the actual driver calls lives outside the library and only marshals data
//! in and out.

pub mod adapter;
pub mod backend;
pub mod caps;
pub mod context;
pub mod device;
pub mod error;
pub mod fmt;
pub mod ident;
pub mod modes;
pub mod support;
pub mod table;
