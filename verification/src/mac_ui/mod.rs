//! The macOS front-end's decisions and plain data: what the popup panel
//! shows, the settings draft, and the texts and indices the panel derives
//! from the app state.

pub mod app_delegate;
pub mod panel;
pub mod settings;
pub mod state;
