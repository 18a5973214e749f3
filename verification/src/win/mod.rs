//! The Windows back-end's plain data.

pub mod focus;
pub mod indicator;
pub mod integrity;
