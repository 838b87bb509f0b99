//! Utility routines of a GUI-toolkit binding: hex/RGB color conversions,
//! nul-safe marshalling of strings for a native call, and the pure half of
//! the native filename-expansion wrapper.

pub mod color;
pub mod expand;
pub mod marshal;
