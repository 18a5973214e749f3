//! The macOS back-end's decisions and plain data.

pub mod focus;
pub mod indicator;
pub mod permissions;
pub mod typing;
