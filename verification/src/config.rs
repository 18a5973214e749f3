//! The configuration's values and defaults. Reading and writing
//! `config.toml` is I/O and lives with the front-end; the master password
//! is never part of this struct.

use vstd::prelude::*;
use vstd::string::StringExecFns;

use crate::vault::Provider;

verus! {

/// Lower bound for `max_visible_items`.
pub const MIN_VISIBLE_ITEMS: u32 = 3;

/// Upper bound for `max_visible_items`.
pub const MAX_VISIBLE_ITEMS: u32 = 10;

/// When the master-password prompt first appears.
#[derive(Debug, Clone, Copy, PartialEq, Eq)]
pub enum UnlockMode {
    /// `unlock_delay_secs` after startup.
    Delayed,
    /// Only when the popup is first opened.
    Lazy,
}

/// The system a build runs on, which picks the default hotkey.
#[derive(Debug, Clone, Copy, PartialEq, Eq)]
pub enum HostOs {
    Windows,
    MacOs,
}

#[derive(Debug, Clone, PartialEq)]
pub struct Config {
    /// `global_hotkey`'s `HotKey::from_str` form, e.g. "Ctrl+Alt+KeyV".
    pub hotkey: String,
    pub unlock_mode: UnlockMode,
    pub unlock_delay_secs: u32,
    pub autostart: bool,
    /// Empty means "autodetect on PATH / known install locations".
    pub bw_path: String,
    /// The `app://` prefix that tags vault items for this app.
    pub uri_prefix: String,
    /// How long to wait after regaining foreground before typing starts.
    pub type_settle_ms: u32,
    /// How many tagged items the popup shows at once; read it through
    /// [`Config::effective_max_visible`].
    pub max_visible_items: u32,
    /// Whether to lock the vault on quit.
    pub lock_on_exit: bool,
    pub debug_log: bool,
    /// Which credential backend is active.
    pub provider: Provider,
    /// The KeePass database file; empty when none is chosen.
    pub keepass_path: String,
}

/// `value` clamped into `lo..=hi` (`lo <= hi`).
pub open spec fn clamp_spec(value: int, lo: int, hi: int) -> int {
    if value < lo {
        lo
    } else if value > hi {
        hi
    } else {
        value
    }
}

/// The out-of-the-box hotkey: `Cmd` on macOS, `Ctrl` elsewhere.
pub open spec fn default_hotkey_spec(host: HostOs) -> Seq<char> {
    match host {
        HostOs::Windows => "Ctrl+Alt+KeyV"@,
        HostOs::MacOs => "Cmd+Shift+KeyV"@,
    }
}

/// The out-of-the-box configuration on `host`.
pub open spec fn is_default_config(c: Config, host: HostOs) -> bool {
    &&& c.hotkey@ == default_hotkey_spec(host)
    &&& c.unlock_mode == UnlockMode::Delayed
    &&& c.unlock_delay_secs == 20
    &&& !c.autostart
    &&& c.bw_path@ == Seq::<char>::empty()
    &&& c.uri_prefix@ == "app://context-password"@
    &&& c.type_settle_ms == 30
    &&& c.max_visible_items == 4
    &&& !c.lock_on_exit
    &&& !c.debug_log
    &&& c.provider == Provider::Bitwarden
    &&& c.keepass_path@ == Seq::<char>::empty()
}

impl Config {
    /// The default configuration for a build running on `host`.
    pub fn default_for(host: HostOs) -> (c: Self)
        ensures
            is_default_config(c, host),
    {
        let hotkey = match host {
            HostOs::Windows => String::from_str("Ctrl+Alt+KeyV"),
            HostOs::MacOs => String::from_str("Cmd+Shift+KeyV"),
        };
        Config {
            hotkey,
            unlock_mode: UnlockMode::Delayed,
            unlock_delay_secs: 20,
            autostart: false,
            bw_path: String::new(),
            uri_prefix: String::from_str("app://context-password"),
            type_settle_ms: 30,
            max_visible_items: 4,
            lock_on_exit: false,
            debug_log: false,
            provider: Provider::Bitwarden,
            keepass_path: String::new(),
        }
    }

    /// The number of items the popup actually shows: `max_visible_items`
    /// clamped to `MIN_VISIBLE_ITEMS..=MAX_VISIBLE_ITEMS`, whatever the
    /// file on disk says.
    pub fn effective_max_visible(&self) -> (n: usize)
        ensures
            n == clamp_spec(
                self.max_visible_items as int,
                MIN_VISIBLE_ITEMS as int,
                MAX_VISIBLE_ITEMS as int,
            ),
    {
        let v = self.max_visible_items;
        if v < MIN_VISIBLE_ITEMS {
            MIN_VISIBLE_ITEMS as usize
        } else if v > MAX_VISIBLE_ITEMS {
            MAX_VISIBLE_ITEMS as usize
        } else {
            v as usize
        }
    }
}

impl Default for Config {
    /// The Windows defaults; a macOS build uses
    /// `Config::default_for(HostOs::MacOs)`.
    fn default() -> (c: Self)
        ensures
            is_default_config(c, HostOs::Windows),
    {
        Config::default_for(HostOs::Windows)
    }
}

} // verus!
