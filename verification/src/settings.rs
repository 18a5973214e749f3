//! Saving the settings screen: what Save checks, which outside changes it
//! attempts (registering a new hotkey, toggling autostart), and what ends
//! up in the configuration given how those went. Whatever succeeds is
//! applied even when something else fails; the first failure is reported.

use vstd::prelude::*;
use vstd::string::StringExecFns;

use crate::config::{clamp_spec, Config, UnlockMode, MAX_VISIBLE_ITEMS, MIN_VISIBLE_ITEMS};
use crate::mac_ui::settings::Draft;
use crate::text::{chars_of, string_of, trim, trim_chars};
use crate::vault::Provider;

verus! {

/// The outside changes Save attempts.
#[derive(Debug, Clone, Copy, PartialEq, Eq, Structural)]
pub struct SettingsPlan {
    /// Register the draft's hotkey in place of the current one.
    pub set_hotkey: bool,
    /// Turn autostart on or off, as the draft says.
    pub set_autostart: bool,
}

/// Save attempts a new hotkey only when the spec changed, and autostart
/// only when it differs from `autostart_now`, the state to compare with
/// (`None` when autostart isn't available, which skips it).
pub open spec fn plan_spec(cfg: Config, draft: Draft, autostart_now: Option<bool>) -> SettingsPlan {
    SettingsPlan {
        set_hotkey: draft.hotkey_spec@ != cfg.hotkey@,
        set_autostart: autostart_now matches Some(a) && draft.autostart != a,
    }
}

/// Which outside changes Save attempts.
pub fn settings_plan(cfg: &Config, draft: &Draft, autostart_now: Option<bool>) -> (p: SettingsPlan)
    ensures
        p == plan_spec(*cfg, *draft, autostart_now),
{
    let set_autostart = match autostart_now {
        Some(a) => draft.autostart != a,
        None => false,
    };
    SettingsPlan { set_hotkey: draft.hotkey_spec != cfg.hotkey, set_autostart }
}

/// The KeePass database path a draft names: its text, trimmed.
pub fn draft_database_path(draft: &Draft) -> (p: String)
    ensures
        p@ == trim(draft.keepass_path@),
{
    string_of(&trim_chars(&chars_of(draft.keepass_path.as_str())))
}

/// Save refuses a KeePass selection whose database file doesn't exist
/// (`is_file` says whether the trimmed path names a file), before applying
/// anything.
pub fn check_database(draft: &Draft, is_file: bool) -> (r: Result<(), String>)
    ensures
        (draft.provider == Provider::KeePass && !is_file) ==> (r matches Err(m) && m@
            == "KeePass database not found: "@ + trim(draft.keepass_path@)),
        !(draft.provider == Provider::KeePass && !is_file) ==> r is Ok,
{
    match draft.provider {
        Provider::KeePass => if !is_file {
            let path = draft_database_path(draft);
            Err(String::from_str("KeePass database not found: ").concat(path.as_str()))
        } else {
            Ok(())
        },
        Provider::Bitwarden => Ok(()),
    }
}

/// The first failure Save reports: the hotkey's, else autostart's.
pub open spec fn first_error(
    plan: SettingsPlan,
    hotkey: Option<Result<(), String>>,
    autostart: Option<Result<(), String>>,
) -> Option<Seq<char>> {
    if plan.set_hotkey && (hotkey matches Some(Err(e))) {
        Some("hotkey: "@ + hotkey->0->Err_0@)
    } else if plan.set_autostart && (autostart matches Some(Err(e))) {
        Some("autostart: "@ + autostart->0->Err_0@)
    } else {
        None
    }
}

/// Applies a checked draft to `cfg`, given how the attempted outside
/// changes went (`hotkey`, `autostart`: `None` when not attempted). The
/// provider, database path (trimmed), unlock mode, lock-on-exit and the
/// visible-item count (clamped to its bounds) are taken as they are; the
/// hotkey and autostart only when their change succeeded. Returns the
/// first failure's message.
pub fn apply_settings(
    cfg: &mut Config,
    draft: &Draft,
    autostart_now: Option<bool>,
    hotkey: Option<Result<(), String>>,
    autostart: Option<Result<(), String>>,
) -> (error: Option<String>)
    ensures
        ({
            let plan = plan_spec(*old(cfg), *draft, autostart_now);
            &&& final(cfg).provider == draft.provider
            &&& final(cfg).keepass_path@ == trim(draft.keepass_path@)
            &&& final(cfg).hotkey@ == (if plan.set_hotkey && (hotkey matches Some(Ok(_))) {
                draft.hotkey_spec@
            } else {
                old(cfg).hotkey@
            })
            &&& final(cfg).autostart == (if plan.set_autostart && (autostart matches Some(Ok(_))) {
                draft.autostart
            } else {
                old(cfg).autostart
            })
            &&& final(cfg).unlock_mode == (if draft.auto_unlock {
                UnlockMode::Delayed
            } else {
                UnlockMode::Lazy
            })
            &&& final(cfg).lock_on_exit == draft.lock_on_exit
            &&& final(cfg).max_visible_items == clamp_spec(
                draft.max_visible_items as int,
                MIN_VISIBLE_ITEMS as int,
                MAX_VISIBLE_ITEMS as int,
            )
            &&& final(cfg).unlock_delay_secs == old(cfg).unlock_delay_secs
            &&& final(cfg).bw_path == old(cfg).bw_path
            &&& final(cfg).uri_prefix == old(cfg).uri_prefix
            &&& final(cfg).type_settle_ms == old(cfg).type_settle_ms
            &&& final(cfg).debug_log == old(cfg).debug_log
            &&& match first_error(plan, hotkey, autostart) {
                Some(m) => error matches Some(e) && e@ == m,
                None => error is None,
            }
        }),
{
    let plan = settings_plan(cfg, draft, autostart_now);
    let mut error: Option<String> = None;
    cfg.provider = draft.provider;
    cfg.keepass_path = draft_database_path(draft);
    if plan.set_hotkey {
        match hotkey {
            Some(Ok(())) => {
                cfg.hotkey = draft.hotkey_spec.clone();
            },
            Some(Err(e)) => {
                error = Some(String::from_str("hotkey: ").concat(e.as_str()));
            },
            None => {},
        }
    }
    if plan.set_autostart {
        match autostart {
            Some(Ok(())) => {
                cfg.autostart = draft.autostart;
            },
            Some(Err(e)) => {
                if error.is_none() {
                    error = Some(String::from_str("autostart: ").concat(e.as_str()));
                }
            },
            None => {},
        }
    }
    cfg.unlock_mode = if draft.auto_unlock {
        UnlockMode::Delayed
    } else {
        UnlockMode::Lazy
    };
    cfg.lock_on_exit = draft.lock_on_exit;
    cfg.max_visible_items = if draft.max_visible_items < MIN_VISIBLE_ITEMS {
        MIN_VISIBLE_ITEMS
    } else if draft.max_visible_items > MAX_VISIBLE_ITEMS {
        MAX_VISIBLE_ITEMS
    } else {
        draft.max_visible_items
    };
    error
}

/// The message a failed save of the configuration adds, unless a failure
/// is already being reported.
pub fn save_error(error: Option<String>, save: Result<(), String>) -> (r: Option<String>)
    ensures
        error is Some ==> r == error,
        error is None ==> match save {
            Ok(()) => r is None,
            Err(e) => r matches Some(m) && m@ == "saving config: "@ + e@,
        },
{
    match error {
        Some(_) => error,
        None => match save {
            Ok(()) => None,
            Err(e) => Some(String::from_str("saving config: ").concat(e.as_str())),
        },
    }
}

} // verus!
