//! Backends implemented by this crate.

pub mod logger;
pub mod virtual_key;
pub mod windows;
pub mod windows_inner;
