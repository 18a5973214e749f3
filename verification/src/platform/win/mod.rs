//! The Windows back-end's decisions.

pub mod autostart;
