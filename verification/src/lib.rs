use vstd::prelude::*;

pub mod bw;
pub mod config;
pub mod controller;
pub mod hotkey;
pub mod keepass;
pub mod mac_ui;
pub mod msg;
pub mod platform;
pub mod secret;
pub mod session;
pub mod settings;
pub mod text;
pub mod ui;
pub mod vault;
pub mod win;

verus! {

} // verus!
