//! The popup's and settings screen's UI-toolkit-free pieces.

pub mod config_window;
pub mod keys;
pub mod popup;
