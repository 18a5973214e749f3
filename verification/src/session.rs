//! The popup session both front-ends share: which screen the popup shows,
//! what is cached from the vault, and how each event (a tray item, the
//! hotkey, a worker result, a key on the popup) changes them. A front-end
//! draws `Session::screen` and carries out the [`Effects`] each call
//! returns; it decides nothing itself.

use vstd::prelude::*;
use vstd::string::{StrSliceExecFns, StringExecFns};

use crate::controller::{DeliveryKind, VaultState};
use crate::mac_ui::state::PopupContent;
use crate::msg::{StaleNotice, VaultCmd, VaultResult};
use crate::secret::Secret;
use crate::text::{chars_eq, chars_of};
use crate::vault::entry::{opt_text, EntryView};
use crate::vault::Entry;

verus! {

/// What the popup displays.
pub enum Content {
    /// The master-password prompt, with the reason the last unlock failed.
    Prompting { error: Option<String> },
    Unlocking,
    /// Waiting on a lock to finish.
    Locking,
    /// Waiting on a sync; the cached list is left in place meanwhile.
    Syncing,
    ShowingList {
        selected: usize,
        /// An inline reason a requested field couldn't be delivered.
        message: Option<String>,
    },
    /// Waiting on the one-time code of the item at `selected`.
    FetchingOtp { selected: usize },
    Settings,
    About,
}

/// The mathematical content of a [`Content`].
pub enum ContentView {
    Prompting { error: Option<Seq<char>> },
    Unlocking,
    Locking,
    Syncing,
    ShowingList { selected: usize, message: Option<Seq<char>> },
    FetchingOtp { selected: usize },
    Settings,
    About,
}

impl View for Content {
    type V = ContentView;

    open spec fn view(&self) -> ContentView {
        match self {
            Content::Prompting { error } => ContentView::Prompting { error: opt_text(*error) },
            Content::Unlocking => ContentView::Unlocking,
            Content::Locking => ContentView::Locking,
            Content::Syncing => ContentView::Syncing,
            Content::ShowingList { selected, message } => ContentView::ShowingList {
                selected: *selected,
                message: opt_text(*message),
            },
            Content::FetchingOtp { selected } => ContentView::FetchingOtp { selected: *selected },
            Content::Settings => ContentView::Settings,
            Content::About => ContentView::About,
        }
    }
}

/// An empty master-password prompt.
pub open spec fn fresh_prompt() -> ContentView {
    ContentView::Prompting { error: None }
}

/// The list at `selected`, with no message.
pub open spec fn plain_list(selected: usize) -> ContentView {
    ContentView::ShowingList { selected, message: None }
}

impl Content {
    /// The panel content of this screen, for a front-end whose Settings
    /// and About are windows of their own (`None` for those two).
    pub fn popup_content(&self) -> (c: Option<PopupContent>)
        ensures
            match *self {
                Content::Prompting { error } => c matches Some(PopupContent::Prompting { error: e })
                    && opt_text(e) == opt_text(error),
                Content::Unlocking => c matches Some(PopupContent::Unlocking),
                Content::Locking => c matches Some(PopupContent::Locking),
                Content::Syncing => c matches Some(PopupContent::Syncing),
                Content::ShowingList { selected, message } => c matches Some(
                    PopupContent::ShowingList { selected: s, message: m },
                ) && s == selected && opt_text(m) == opt_text(message),
                Content::FetchingOtp { selected } => c matches Some(
                    PopupContent::FetchingOtp { selected: s },
                ) && s == selected,
                Content::Settings | Content::About => c is None,
            },
    {
        match self {
            Content::Prompting { error } => Some(PopupContent::Prompting { error: error.clone() }),
            Content::Unlocking => Some(PopupContent::Unlocking),
            Content::Locking => Some(PopupContent::Locking),
            Content::Syncing => Some(PopupContent::Syncing),
            Content::ShowingList { selected, message } => Some(
                PopupContent::ShowingList { selected: *selected, message: message.clone() },
            ),
            Content::FetchingOtp { selected } => Some(PopupContent::FetchingOtp { selected: *selected }),
            Content::Settings | Content::About => None,
        }
    }

    /// An empty master-password prompt.
    pub fn fresh_prompt() -> (s: Self)
        ensures
            s@ == fresh_prompt(),
    {
        Content::Prompting { error: None }
    }
}

/// The state of the popup and of what it knows of the vault.
pub struct Session {
    /// Drives the tray's Show/Unlock label and whether Lock is offered.
    pub vault_state: VaultState,
    /// The entries of the last list fetched, and how many items the filter
    /// dropped.
    pub cached: Option<(Vec<Entry>, usize)>,
    /// Set while the cached list may be stale because a sync failed.
    pub sync_stale: Option<StaleNotice>,
    pub screen: Content,
    /// Whether the popup is on screen (or on its way there).
    pub visible: bool,
    /// Whether a delivery is in flight.
    pub delivering: bool,
    /// Whether Settings has unregistered the global hotkey to record a new
    /// one.
    pub hotkey_suspended: bool,
    /// Whether the popup was opened with a window to type into.
    pub has_target: bool,
}

/// What becomes of the global hotkey's registration.
#[derive(Debug, Clone, Copy, PartialEq, Eq, Structural)]
pub enum HotkeyChange {
    Keep,
    /// Unregister it.
    Suspend,
    /// Register it again.
    Resume,
}

/// What a front-end does after a call on its [`Session`].
pub struct Effects {
    /// A command for the vault worker.
    pub send: Option<VaultCmd>,
    /// Start typing this into the target: hide the popup and run the
    /// delivery sequence.
    pub deliver: Option<Secret>,
    /// Register the global hotkey again.
    pub resume_hotkey: bool,
    /// The screen was replaced: redraw it. A prompt put in place is empty.
    pub replaced: bool,
    /// The screen changed size class (a spinner or prompt became the list):
    /// measure and place the window again.
    pub relayout: bool,
}

impl Effects {
    /// Nothing to do.
    pub open spec fn quiet(self) -> bool {
        &&& self.send is None
        &&& self.deliver is None
        &&& !self.resume_hotkey
        &&& !self.replaced
        &&& !self.relayout
    }

    fn none() -> (e: Self)
        ensures
            e.quiet(),
    {
        Effects { send: None, deliver: None, resume_hotkey: false, replaced: false, relayout: false }
    }

    fn redraw() -> (e: Self)
        ensures
            e.send is None,
            e.deliver is None,
            !e.resume_hotkey,
            e.replaced,
            !e.relayout,
    {
        Effects { send: None, deliver: None, resume_hotkey: false, replaced: true, relayout: false }
    }
}

/// The screen a popup opens on: a sync in flight keeps its spinner, a
/// cached list shows from the top, and otherwise an unlock or lock in
/// flight keeps its spinner; else an empty prompt.
pub open spec fn opening_screen(has_cache: bool, s: ContentView) -> ContentView {
    match s {
        ContentView::Syncing => ContentView::Syncing,
        _ => if has_cache {
            plain_list(0)
        } else {
            match s {
                ContentView::Unlocking => ContentView::Unlocking,
                ContentView::Locking => ContentView::Locking,
                _ => fresh_prompt(),
            }
        },
    }
}

/// The screens that a fresh list replaces: the unlock and sync spinners,
/// and a list already showing (refreshed in place).
pub open spec fn shows_new_list(s: ContentView) -> bool {
    s is Unlocking || s is Syncing || s is ShowingList
}

/// The selection a refreshed list keeps: the current one on a list,
/// else the top.
pub open spec fn kept_selection(s: ContentView) -> usize {
    match s {
        ContentView::ShowingList { selected, .. } => selected,
        _ => 0,
    }
}

/// The inline text of a failure at `stage`.
pub open spec fn failure_text(stage: Seq<char>, message: Seq<char>) -> Seq<char> {
    stage + ": "@ + message
}

/// The stage name of a sync.
pub open spec fn sync_stage() -> Seq<char> {
    "sync"@
}

/// `"{stage}: {message}"`.
fn failure_line(stage: &str, message: &str) -> (r: String)
    ensures
        r@ == failure_text(stage@, message@),
{
    String::from_str(stage).concat(": ").concat(message)
}

/// Whether `stage` names a sync.
fn is_sync_stage(stage: &str) -> (b: bool)
    ensures
        b == (stage@ == sync_stage()),
{
    chars_eq(&chars_of(stage), &chars_of("sync"))
}

/// The keys one frame of the list saw (a front-end that gets one key per
/// event sets one of them).
#[derive(Clone, Copy)]
pub struct ListKeys {
    pub down: bool,
    pub up: bool,
    pub home: bool,
    pub end: bool,
    /// A quick-select digit: the row it names.
    pub digit: Option<usize>,
    pub enter: bool,
    pub escape: bool,
    /// The popup lost the focus after having had it.
    pub blurred: bool,
}

/// What the list does with a frame's keys.
#[derive(Debug, Clone, Copy, PartialEq, Eq, Structural)]
pub enum ListAction {
    Nothing,
    /// Deliver the selected row.
    Deliver,
    /// Dismiss the popup.
    Hide,
}

/// The new selection, whether it moved, and what to do next.
#[derive(Debug, Clone, Copy, PartialEq, Eq, Structural)]
pub struct ListOutcome {
    pub selected: usize,
    pub moved: bool,
    pub action: ListAction,
}

/// Down wraps from the last row to the first.
pub open spec fn step_down(selected: usize, count: usize) -> usize {
    ((selected + 1) % (count as int)) as usize
}

/// Up wraps from the first row to the last.
pub open spec fn step_up(selected: usize, count: usize) -> usize {
    if selected == 0 {
        (count - 1) as usize
    } else {
        (selected - 1) as usize
    }
}

/// Whether the frame's digit names a row of the list.
pub open spec fn digit_hits(keys: ListKeys, count: usize) -> bool {
    keys.digit matches Some(i) && i < count
}

/// The selection after a frame's moves, applied in the order Down, Up,
/// Home, End, digit. An empty list doesn't move.
pub open spec fn moved_selection(selected: usize, count: usize, keys: ListKeys) -> usize {
    if count == 0 {
        selected
    } else {
        let a = if keys.down {
            step_down(selected, count)
        } else {
            selected
        };
        let b = if keys.up {
            step_up(a, count)
        } else {
            a
        };
        let c = if keys.home {
            0
        } else {
            b
        };
        let d = if keys.end {
            (count - 1) as usize
        } else {
            c
        };
        if digit_hits(keys, count) {
            keys.digit->0
        } else {
            d
        }
    }
}

/// Whether any of the frame's keys moves the selection.
pub open spec fn any_move(keys: ListKeys, count: usize) -> bool {
    count > 0 && (keys.down || keys.up || keys.home || keys.end || digit_hits(keys, count))
}

/// A digit both selects and delivers; Enter delivers; Escape or a blur
/// dismisses, unless something is delivered.
pub open spec fn list_outcome(selected: usize, count: usize, keys: ListKeys) -> ListOutcome {
    ListOutcome {
        selected: moved_selection(selected, count, keys),
        moved: any_move(keys, count),
        action: if count > 0 && (keys.enter || digit_hits(keys, count)) {
            ListAction::Deliver
        } else if keys.escape || keys.blurred {
            ListAction::Hide
        } else {
            ListAction::Nothing
        },
    }
}

/// What a frame's keys do to a list of `count` rows at `selected`.
pub fn list_keys(selected: usize, count: usize, keys: ListKeys) -> (o: ListOutcome)
    ensures
        o == list_outcome(selected, count, keys),
{
    let mut sel = selected;
    let mut moved = false;
    let mut digit_selected = false;
    if count > 0 {
        if keys.down {
            sel = (sel % count + 1) % count;
            proof {
                let m = count as int;
                let x = selected as int;
                vstd::arithmetic::div_mod::lemma_add_mod_noop(x, 1, m);
                vstd::arithmetic::div_mod::lemma_mod_twice(x, m);
                if m > 1 {
                    vstd::arithmetic::div_mod::lemma_small_mod(1, count as nat);
                } else {
                    vstd::arithmetic::div_mod::lemma_mod_self_0(1);
                }
                vstd::arithmetic::div_mod::lemma_add_mod_noop(x % m, 1, m);
                vstd::arithmetic::div_mod::lemma_mod_bound(x, m);
            }
            moved = true;
        }
        if keys.up {
            sel = if sel == 0 {
                count - 1
            } else {
                sel - 1
            };
            moved = true;
        }
        if keys.home {
            sel = 0;
            moved = true;
        }
        if keys.end {
            sel = count - 1;
            moved = true;
        }
        if let Some(i) = keys.digit {
            if i < count {
                sel = i;
                moved = true;
                digit_selected = true;
            }
        }
    }
    let action = if (keys.enter || digit_selected) && count > 0 {
        ListAction::Deliver
    } else if keys.escape || keys.blurred {
        ListAction::Hide
    } else {
        ListAction::Nothing
    };
    ListOutcome { selected: sel, moved, action }
}

/// Down then Up comes back to the same row, on any list and from any row
/// of it.
pub proof fn lemma_down_then_up_returns(selected: usize, count: usize)
    requires
        selected < count,
    ensures
        step_up(step_down(selected, count), count) == selected,
{
    if selected + 1 < count {
        vstd::arithmetic::div_mod::lemma_small_mod((selected + 1) as nat, count as nat);
    } else {
        vstd::arithmetic::div_mod::lemma_mod_self_0(count as int);
    }
}

/// Up then Down comes back to the same row.
pub proof fn lemma_up_then_down_returns(selected: usize, count: usize)
    requires
        selected < count,
    ensures
        step_down(step_up(selected, count), count) == selected,
{
    if selected == 0 {
        vstd::arithmetic::div_mod::lemma_mod_self_0(count as int);
    } else {
        vstd::arithmetic::div_mod::lemma_small_mod(selected as nat, count as nat);
    }
}

/// Whatever keys a frame saw, a selection on a non-empty list stays on
/// one of its rows.
pub proof fn lemma_selection_stays_on_the_list(selected: usize, count: usize, keys: ListKeys)
    requires
        selected < count,
    ensures
        moved_selection(selected, count, keys) < count,
{
    vstd::arithmetic::div_mod::lemma_mod_bound((selected + 1) as int, count as int);
}

impl Session {
    /// The session's invariant: an unlocked vault always has a list
    /// cached, and while a lock is in flight nothing is held in memory.
    pub open spec fn wf(self) -> bool {
        &&& self.vault_state == VaultState::Unlocked ==> self.cached is Some
        &&& self.vault_state == VaultState::Locking ==> self.cached is None
    }

    /// Whether row `i` of the cached list exists.
    pub open spec fn has_row(self, i: usize) -> bool {
        self.cached matches Some(c) && i < c.0.len()
    }

    /// Row `i` of the cached list.
    pub open spec fn row(self, i: usize) -> EntryView {
        self.cached.unwrap().0@[i as int]@
    }

    /// Everything but the screen and the popup's visibility is unchanged.
    pub open spec fn same_vault(self, other: Session) -> bool {
        &&& self.vault_state == other.vault_state
        &&& self.cached == other.cached
        &&& self.sync_stale == other.sync_stale
        &&& self.delivering == other.delivering
        &&& self.hotkey_suspended == other.hotkey_suspended
    }

    /// A locked session on an empty prompt, with the popup hidden.
    pub fn new() -> (s: Self)
        ensures
            s.wf(),
            s.vault_state == VaultState::Locked,
            s.cached is None,
            s.sync_stale is None,
            s.screen@ == fresh_prompt(),
            !s.visible,
            !s.delivering,
            !s.hotkey_suspended,
            !s.has_target,
    {
        Session {
            vault_state: VaultState::Locked,
            cached: None,
            sync_stale: None,
            screen: Content::fresh_prompt(),
            visible: false,
            delivering: false,
            hotkey_suspended: false,
            has_target: false,
        }
    }

    /// The popup is opened by the hotkey (`has_target`) or the tray. A
    /// popup that is already showing something, or a delivery in flight,
    /// is never interrupted. An unlocked vault is asked for a fresh list,
    /// which replaces the cached one when it arrives.
    pub fn open_popup(&mut self, has_target: bool) -> (e: Effects)
        requires
            old(self).wf(),
        ensures
            final(self).wf(),
            old(self).visible || old(self).delivering ==> *final(self) == *old(self) && e.quiet(),
            !(old(self).visible || old(self).delivering) ==> {
                &&& final(self).same_vault(*old(self))
                &&& final(self).visible
                &&& final(self).has_target == has_target
                &&& final(self).screen@ == opening_screen(old(self).cached is Some, old(self).screen@)
                &&& (old(self).vault_state == VaultState::Unlocked ==> e.send matches Some(
                    VaultCmd::List,
                ))
                &&& (old(self).vault_state != VaultState::Unlocked ==> e.send is None)
                &&& e.deliver is None
                &&& !e.resume_hotkey
                &&& e.replaced
                &&& e.relayout
            },
    {
        if self.visible || self.delivering {
            return Effects::none();
        }
        let next = match &self.screen {
            Content::Syncing => Content::Syncing,
            Content::Unlocking if self.cached.is_none() => Content::Unlocking,
            Content::Locking if self.cached.is_none() => Content::Locking,
            _ => if self.cached.is_some() {
                Content::ShowingList { selected: 0, message: None }
            } else {
                Content::fresh_prompt()
            },
        };
        self.screen = next;
        self.has_target = has_target;
        self.visible = true;
        let send = if self.vault_state == VaultState::Unlocked {
            Some(VaultCmd::List)
        } else {
            None
        };
        Effects { send, deliver: None, resume_hotkey: false, replaced: true, relayout: true }
    }

    /// The popup is dismissed. A half-typed prompt (and the Settings and
    /// About screens) is reset to an empty prompt at once, so no password
    /// lingers in memory while the popup is closed.
    pub fn hide_popup(&mut self) -> (e: Effects)
        ensures
            final(self).same_vault(*old(self)),
            final(self).has_target == old(self).has_target,
            !final(self).visible,
            (old(self).screen is Prompting || old(self).screen is Settings || old(self).screen is About) ==> final(self).screen@ == fresh_prompt() && e.replaced,
            !(old(self).screen is Prompting || old(self).screen is Settings || old(self).screen is About) ==> final(self).screen == old(self).screen && !e.replaced,
            e.send is None,
            e.deliver is None,
            !e.resume_hotkey,
            !e.relayout,
    {
        self.visible = false;
        match self.screen {
            Content::Prompting { .. } | Content::Settings | Content::About => {
                self.screen = Content::fresh_prompt();
                Effects::redraw()
            },
            _ => Effects::none(),
        }
    }

    /// The tray's Lock: forget the cached items and their passwords now,
    /// show the lock's progress, and ask the worker to lock. A suspended
    /// hotkey is registered again rather than left dead.
    pub fn handle_lock(&mut self) -> (e: Effects)
        ensures
            final(self).wf(),
            final(self).vault_state == VaultState::Locking,
            final(self).cached is None,
            final(self).sync_stale is None,
            final(self).screen@ == ContentView::Locking,
            final(self).visible == old(self).visible,
            final(self).delivering == old(self).delivering,
            final(self).has_target == old(self).has_target,
            !final(self).hotkey_suspended,
            e.send matches Some(VaultCmd::Lock),
            e.deliver is None,
            e.resume_hotkey == old(self).hotkey_suspended,
            e.replaced,
            !e.relayout,
    {
        self.cached = None;
        self.sync_stale = None;
        let resume = self.hotkey_suspended;
        self.hotkey_suspended = false;
        self.screen = Content::Locking;
        self.vault_state = VaultState::Locking;
        Effects {
            send: Some(VaultCmd::Lock),
            deliver: None,
            resume_hotkey: resume,
            replaced: true,
            relayout: false,
        }
    }

    /// The tray's Sync: only an unlocked vault with no sync already in
    /// flight is refreshed. A hidden popup, or one on the list, switches to
    /// the sync spinner; any other screen is left alone while the refresh
    /// runs in the background.
    pub fn handle_sync(&mut self) -> (e: Effects)
        requires
            old(self).wf(),
        ensures
            final(self).wf(),
            old(self).vault_state != VaultState::Unlocked || old(self).screen is Syncing
                ==> *final(self) == *old(self) && e.quiet(),
            !(old(self).vault_state != VaultState::Unlocked || old(self).screen is Syncing) ==> {
                &&& final(self).same_vault(*old(self))
                &&& final(self).visible == old(self).visible
                &&& final(self).has_target == old(self).has_target
                &&& e.send matches Some(VaultCmd::Sync)
                &&& e.deliver is None
                &&& !e.resume_hotkey
                &&& !e.relayout
                &&& if !old(self).visible || old(self).screen is ShowingList {
                    final(self).screen@ == ContentView::Syncing && e.replaced
                } else {
                    final(self).screen == old(self).screen && !e.replaced
                }
            },
    {
        if self.vault_state != VaultState::Unlocked {
            return Effects::none();
        }
        if let Content::Syncing = self.screen {
            return Effects::none();
        }
        let mut replaced = false;
        let to_spinner = match self.screen {
            Content::ShowingList { .. } => true,
            _ => !self.visible,
        };
        if to_spinner {
            self.screen = Content::Syncing;
            replaced = true;
        }
        Effects { send: Some(VaultCmd::Sync), deliver: None, resume_hotkey: false, replaced, relayout: false }
    }

    /// Right after the worker was replaced by one for another provider: the
    /// old worker's secrets went with it, so the session is locked at once
    /// (no lock command), with nothing cached and any delivery dropped.
    pub fn reset_for_provider_switch(&mut self) -> (e: Effects)
        ensures
            final(self).wf(),
            final(self).vault_state == VaultState::Locked,
            final(self).cached is None,
            final(self).sync_stale is None,
            final(self).screen@ == fresh_prompt(),
            !final(self).delivering,
            !final(self).hotkey_suspended,
            final(self).visible == old(self).visible,
            final(self).has_target == old(self).has_target,
            e.send is None,
            e.deliver is None,
            e.resume_hotkey == old(self).hotkey_suspended,
            e.replaced,
            !e.relayout,
    {
        self.cached = None;
        self.sync_stale = None;
        self.delivering = false;
        let resume = self.hotkey_suspended;
        self.hotkey_suspended = false;
        self.vault_state = VaultState::Locked;
        self.screen = Content::fresh_prompt();
        Effects { send: None, deliver: None, resume_hotkey: resume, replaced: true, relayout: false }
    }

    /// A result from the live vault worker.
    ///
    /// - A list makes the vault unlocked and replaces the cache, unless a
    ///   lock is in flight: a list that lands then is dropped, so that
    ///   locking keeps meaning nothing is cached. A spinner waiting on it,
    ///   or a list already showing, switches to the new list, keeping the
    ///   selection of the list.
    /// - A failure goes back to the prompt (from the unlock spinner, with
    ///   its message), to the list (from the sync spinner or a one-time
    ///   code fetch, with the message inline), and a failed sync is
    ///   remembered as a stale-list notice whatever is showing. A list that
    ///   replaces a spinner re-measures and re-places the window, but only
    ///   while the popup is on screen.
    /// - A finished lock leaves the vault locked; its spinner becomes the
    ///   prompt.
    /// - A one-time code is typed if the popup is still waiting for it and
    ///   has a window to type into; otherwise it is dropped.
    pub fn handle_vault_result(&mut self, result: VaultResult) -> (e: Effects)
        requires
            old(self).wf(),
        ensures
            final(self).wf(),
            final(self).hotkey_suspended == old(self).hotkey_suspended,
            final(self).has_target == old(self).has_target,
            e.send is None,
            !e.resume_hotkey,
            match result {
                VaultResult::Items { entries, dropped, stale } => if old(self).vault_state
                    == VaultState::Locking {
                    *final(self) == *old(self) && e.quiet()
                } else {
                    &&& final(self).vault_state == VaultState::Unlocked
                    &&& final(self).cached == Some((entries, dropped))
                    &&& final(self).sync_stale == stale
                    &&& final(self).visible == old(self).visible
                    &&& final(self).delivering == old(self).delivering
                    &&& e.deliver is None
                    &&& if shows_new_list(old(self).screen@) {
                        &&& final(self).screen@ == plain_list(kept_selection(old(self).screen@))
                        &&& e.replaced
                        &&& e.relayout == (old(self).visible && !(old(self).screen is ShowingList))
                    } else {
                        final(self).screen == old(self).screen && !e.replaced && !e.relayout
                    }
                },
                VaultResult::Failed { stage, kind, message } => {
                    &&& final(self).vault_state == old(self).vault_state
                    &&& final(self).cached == old(self).cached
                    &&& final(self).visible == old(self).visible
                    &&& final(self).delivering == old(self).delivering
                    &&& e.deliver is None
                    &&& (stage@ == sync_stage() ==> (final(self).sync_stale matches Some(n) && n.reason
                        == kind && n.last_sync is None && n.detail@ == message@))
                    &&& (stage@ != sync_stage() ==> final(self).sync_stale == old(self).sync_stale)
                    &&& match old(self).screen@ {
                        ContentView::Unlocking => final(self).screen@ == (ContentView::Prompting {
                            error: Some(message@),
                        }) && e.replaced && !e.relayout,
                        ContentView::Syncing => {
                            &&& (old(self).cached is Some ==> final(self).screen@ == (
                            ContentView::ShowingList {
                                selected: 0,
                                message: Some(failure_text(stage@, message@)),
                            }))
                            &&& (old(self).cached is None ==> final(self).screen@ == fresh_prompt())
                            &&& e.replaced
                            &&& e.relayout == old(self).visible
                        },
                        ContentView::FetchingOtp { selected } => final(self).screen@ == (
                        ContentView::ShowingList {
                            selected,
                            message: Some(failure_text(stage@, message@)),
                        }) && e.replaced && !e.relayout,
                        _ => final(self).screen == old(self).screen && !e.replaced && !e.relayout,
                    }
                },
                VaultResult::Locked => {
                    &&& final(self).vault_state == VaultState::Locked
                    &&& final(self).cached == old(self).cached
                    &&& final(self).sync_stale == old(self).sync_stale
                    &&& final(self).visible == old(self).visible
                    &&& final(self).delivering == old(self).delivering
                    &&& e.deliver is None
                    &&& !e.relayout
                    &&& if old(self).screen is Locking {
                        final(self).screen@ == fresh_prompt() && e.replaced
                    } else {
                        final(self).screen == old(self).screen && !e.replaced
                    }
                },
                VaultResult::Totp(code) => match old(self).screen@ {
                    ContentView::FetchingOtp { selected } => {
                        &&& final(self).vault_state == old(self).vault_state
                        &&& final(self).cached == old(self).cached
                        &&& final(self).sync_stale == old(self).sync_stale
                        &&& e.replaced
                        &&& !e.relayout
                        &&& if old(self).has_target {
                            &&& final(self).screen@ == plain_list(selected)
                            &&& e.deliver == Some(code)
                            &&& final(self).delivering
                            &&& !final(self).visible
                        } else {
                            &&& final(self).screen@ == (ContentView::ShowingList {
                                selected,
                                message: Some("no delivery target"@),
                            })
                            &&& e.deliver is None
                            &&& final(self).delivering == old(self).delivering
                            &&& final(self).visible == old(self).visible
                        }
                    },
                    _ => *final(self) == *old(self) && e.quiet(),
                },
            },
    {
        match result {
            VaultResult::Items { entries, dropped, stale } => {
                if self.vault_state == VaultState::Locking {
                    return Effects::none();
                }
                self.cached = Some((entries, dropped));
                self.sync_stale = stale;
                self.vault_state = VaultState::Unlocked;
                let (selected, was_list) = match self.screen {
                    Content::ShowingList { selected, .. } => (selected, true),
                    Content::Unlocking | Content::Syncing => (0, false),
                    _ => {
                        return Effects::none();
                    },
                };
                self.screen = Content::ShowingList { selected, message: None };
                Effects {
                    send: None,
                    deliver: None,
                    resume_hotkey: false,
                    replaced: true,
                    relayout: self.visible && !was_list,
                }
            },
            VaultResult::Failed { stage, kind, message } => {
                if is_sync_stage(stage) {
                    self.sync_stale = Some(
                        StaleNotice { reason: kind, last_sync: None, detail: message.clone() },
                    );
                }
                match self.screen {
                    Content::Unlocking => {
                        self.screen = Content::Prompting { error: Some(message) };
                        Effects::redraw()
                    },
                    Content::Syncing => {
                        self.screen = if self.cached.is_some() {
                            Content::ShowingList {
                                selected: 0,
                                message: Some(failure_line(stage, message.as_str())),
                            }
                        } else {
                            Content::fresh_prompt()
                        };
                        Effects {
                            send: None,
                            deliver: None,
                            resume_hotkey: false,
                            replaced: true,
                            relayout: self.visible,
                        }
                    },
                    Content::FetchingOtp { selected } => {
                        self.screen = Content::ShowingList {
                            selected,
                            message: Some(failure_line(stage, message.as_str())),
                        };
                        Effects::redraw()
                    },
                    _ => Effects::none(),
                }
            },
            VaultResult::Locked => {
                self.vault_state = VaultState::Locked;
                if let Content::Locking = self.screen {
                    self.screen = Content::fresh_prompt();
                    Effects::redraw()
                } else {
                    Effects::none()
                }
            },
            VaultResult::Totp(code) => {
                let selected = match self.screen {
                    Content::FetchingOtp { selected } => selected,
                    _ => {
                        return Effects::none();
                    },
                };
                if !self.has_target {
                    self.screen = Content::ShowingList {
                        selected,
                        message: Some(String::from_str("no delivery target")),
                    };
                    return Effects::redraw();
                }
                self.screen = Content::ShowingList { selected, message: None };
                self.delivering = true;
                self.visible = false;
                Effects {
                    send: None,
                    deliver: Some(code),
                    resume_hotkey: false,
                    replaced: true,
                    relayout: false,
                }
            },
        }
    }

    /// Enter, a digit or a click on row `selected` of the cached list,
    /// with `kind` chosen by the held modifier. The password and username
    /// are typed from the cache; a missing username, or a one-time code on
    /// an item without one, is said inline rather than typing something
    /// else; a one-time code is fetched first. Nothing happens for a row
    /// that isn't there or a popup with no window to type into.
    pub fn start_delivery(&mut self, selected: usize, kind: DeliveryKind) -> (e: Effects)
        requires
            old(self).wf(),
        ensures
            final(self).wf(),
            final(self).vault_state == old(self).vault_state,
            final(self).cached == old(self).cached,
            final(self).sync_stale == old(self).sync_stale,
            final(self).hotkey_suspended == old(self).hotkey_suspended,
            final(self).has_target == old(self).has_target,
            !e.resume_hotkey,
            !e.relayout,
            !(old(self).has_row(selected) && old(self).has_target) ==> *final(self) == *old(self)
                && e.quiet(),
            old(self).has_row(selected) && old(self).has_target ==> {
                let entry = old(self).row(selected);
                match kind {
                    DeliveryKind::Password => {
                        &&& e.deliver matches Some(s) && s@ == entry.password
                        &&& e.send is None
                        &&& final(self).delivering
                        &&& !final(self).visible
                        &&& final(self).screen == old(self).screen
                        &&& !e.replaced
                    },
                    DeliveryKind::Username => match entry.username {
                        Some(u) => {
                            &&& e.deliver matches Some(s) && s@ == u
                            &&& e.send is None
                            &&& final(self).delivering
                            &&& !final(self).visible
                            &&& final(self).screen == old(self).screen
                            &&& !e.replaced
                        },
                        None => {
                            &&& final(self).screen@ == (ContentView::ShowingList {
                                selected,
                                message: Some("This item has no username."@),
                            })
                            &&& e.deliver is None
                            &&& e.send is None
                            &&& e.replaced
                            &&& final(self).delivering == old(self).delivering
                            &&& final(self).visible == old(self).visible
                        },
                    },
                    DeliveryKind::Otp => if entry.has_totp {
                        &&& final(self).screen@ == (ContentView::FetchingOtp { selected })
                        &&& e.send matches Some(VaultCmd::GetTotp(id)) && id@ == entry.id
                        &&& e.deliver is None
                        &&& e.replaced
                        &&& final(self).delivering == old(self).delivering
                        &&& final(self).visible == old(self).visible
                    } else {
                        &&& final(self).screen@ == (ContentView::ShowingList {
                            selected,
                            message: Some("This item has no TOTP configured."@),
                        })
                        &&& e.deliver is None
                        &&& e.send is None
                        &&& e.replaced
                        &&& final(self).delivering == old(self).delivering
                        &&& final(self).visible == old(self).visible
                    },
                }
            },
    {
        if !self.has_target {
            return Effects::none();
        }
        let secret = match &self.cached {
            None => {
                return Effects::none();
            },
            Some(c) => {
                if selected >= c.0.len() {
                    return Effects::none();
                }
                let entry = &c.0[selected];
                match kind {
                    DeliveryKind::Password => entry.password.clone_secret(),
                    DeliveryKind::Username => match &entry.username {
                        Some(u) => Secret::new(u.clone()),
                        None => {
                            self.screen = Content::ShowingList {
                                selected,
                                message: Some(String::from_str("This item has no username.")),
                            };
                            return Effects::redraw();
                        },
                    },
                    DeliveryKind::Otp => {
                        if !entry.has_totp {
                            self.screen = Content::ShowingList {
                                selected,
                                message: Some(String::from_str("This item has no TOTP configured.")),
                            };
                            return Effects::redraw();
                        }
                        let id = entry.id.clone();
                        self.screen = Content::FetchingOtp { selected };
                        return Effects {
                            send: Some(VaultCmd::GetTotp(id)),
                            deliver: None,
                            resume_hotkey: false,
                            replaced: true,
                            relayout: false,
                        };
                    },
                }
            },
        };
        self.delivering = true;
        self.visible = false;
        Effects { send: None, deliver: Some(secret), resume_hotkey: false, replaced: false, relayout: false }
    }

    /// The delivery in flight has finished, typed or aborted.
    pub fn finish_delivery(&mut self)
        ensures
            final(self).same_vault(*old(self)) || old(self).delivering,
            !final(self).delivering,
            final(self).vault_state == old(self).vault_state,
            final(self).cached == old(self).cached,
            final(self).sync_stale == old(self).sync_stale,
            final(self).hotkey_suspended == old(self).hotkey_suspended,
            final(self).screen == old(self).screen,
            final(self).visible == old(self).visible,
            final(self).has_target == old(self).has_target,
    {
        self.delivering = false;
    }

    /// Enter on the prompt: a non-empty password is sent to be unlocked
    /// and the unlock spinner shows. An empty one, or any other screen,
    /// changes nothing.
    pub fn submit_password(&mut self, password: String) -> (e: Effects)
        requires
            old(self).wf(),
        ensures
            final(self).wf(),
            !(old(self).screen is Prompting && password@.len() > 0) ==> *final(self) == *old(self)
                && e.quiet(),
            old(self).screen is Prompting && password@.len() > 0 ==> {
                &&& final(self).same_vault(*old(self))
                &&& final(self).visible == old(self).visible
                &&& final(self).has_target == old(self).has_target
                &&& final(self).screen@ == ContentView::Unlocking
                &&& e.send matches Some(VaultCmd::Unlock(p)) && p@ == password@
                &&& e.deliver is None
                &&& !e.resume_hotkey
                &&& e.replaced
                &&& !e.relayout
            },
    {
        if let Content::Prompting { .. } = self.screen {
            if password.as_str().unicode_len() > 0 {
                self.screen = Content::Unlocking;
                return Effects {
                    send: Some(VaultCmd::Unlock(Secret::new(password))),
                    deliver: None,
                    resume_hotkey: false,
                    replaced: true,
                    relayout: false,
                };
            }
        }
        Effects::none()
    }

    /// Escape. Waiting on a one-time code has a natural way back, to the
    /// list; on every other screen Escape dismisses the popup (the busy
    /// spinners included: dismissing is an explicit wish).
    pub fn escape(&mut self) -> (e: Effects)
        ensures
            final(self).same_vault(*old(self)),
            final(self).has_target == old(self).has_target,
            e.send is None,
            e.deliver is None,
            !e.resume_hotkey,
            !e.relayout,
            e.replaced == (old(self).screen is FetchingOtp || old(self).screen is Prompting || old(self).screen is Settings || old(self).screen is About),
            match old(self).screen@ {
                ContentView::FetchingOtp { selected } => final(self).screen@ == plain_list(selected)
                    && final(self).visible == old(self).visible,
                ContentView::Prompting { .. } | ContentView::Settings | ContentView::About => final(self).screen@ == fresh_prompt() && !final(self).visible,
                _ => final(self).screen == old(self).screen && !final(self).visible,
            },
    {
        if let Content::FetchingOtp { selected } = self.screen {
            self.screen = Content::ShowingList { selected, message: None };
            return Effects::redraw();
        }
        self.hide_popup()
    }

    /// The popup lost the focus after having had it. The prompt and the
    /// list are dismissed; the busy spinners are not (a slow unlock that
    /// vanished on a stray click would be maddening), and a one-time code
    /// fetch is kept only where `keep_while_fetching` says so.
    pub fn blur(&mut self, keep_while_fetching: bool) -> (e: Effects)
        ensures
            final(self).same_vault(*old(self)),
            final(self).has_target == old(self).has_target,
            e.send is None,
            e.deliver is None,
            !e.resume_hotkey,
            !e.relayout,
            e.replaced == old(self).screen is Prompting,
            if old(self).screen is Prompting || old(self).screen is ShowingList || (old(self).screen is FetchingOtp && !keep_while_fetching) {
                !final(self).visible && (old(self).screen is Prompting ==> final(self).screen@
                    == fresh_prompt()) && (!(old(self).screen is Prompting) ==> final(self).screen
                    == old(self).screen)
            } else {
                *final(self) == *old(self)
            },
    {
        let dismiss = match self.screen {
            Content::Prompting { .. } | Content::ShowingList { .. } => true,
            Content::FetchingOtp { .. } => !keep_while_fetching,
            _ => false,
        };
        if dismiss {
            self.hide_popup()
        } else {
            Effects::none()
        }
    }

    /// Follows the hotkey recorder of the Settings screen: while it records,
    /// the live global hotkey is unregistered, so that its own combination
    /// reaches the recorder as an ordinary key event; once recording stops
    /// it is registered again. Nothing changes on any other screen.
    pub fn follow_recording(&mut self, recording: bool) -> (c: HotkeyChange)
        ensures
            final(self).vault_state == old(self).vault_state,
            final(self).cached == old(self).cached,
            final(self).sync_stale == old(self).sync_stale,
            final(self).screen == old(self).screen,
            final(self).visible == old(self).visible,
            final(self).delivering == old(self).delivering,
            final(self).has_target == old(self).has_target,
            if old(self).screen is Settings && recording && !old(self).hotkey_suspended {
                c == HotkeyChange::Suspend && final(self).hotkey_suspended
            } else if old(self).screen is Settings && !recording && old(self).hotkey_suspended {
                c == HotkeyChange::Resume && !final(self).hotkey_suspended
            } else {
                c == HotkeyChange::Keep && final(self).hotkey_suspended == old(self).hotkey_suspended
            },
    {
        if let Content::Settings = self.screen {
            if recording && !self.hotkey_suspended {
                self.hotkey_suspended = true;
                return HotkeyChange::Suspend;
            } else if !recording && self.hotkey_suspended {
                self.hotkey_suspended = false;
                return HotkeyChange::Resume;
            }
        }
        HotkeyChange::Keep
    }

    /// Opens the Settings screen in the popup, with no window to type into.
    /// Not while a delivery is in flight.
    pub fn open_settings(&mut self) -> (e: Effects)
        ensures
            final(self).same_vault(*old(self)),
            old(self).delivering ==> *final(self) == *old(self) && e.quiet(),
            !old(self).delivering ==> final(self).screen@ == ContentView::Settings && final(self).visible && !final(self).has_target && e.replaced && e.relayout && e.send is None
                && e.deliver is None && !e.resume_hotkey,
    {
        self.show_screen(Content::Settings)
    }

    /// Opens the About screen in the popup, with no window to type into.
    /// Not while a delivery is in flight.
    pub fn open_about(&mut self) -> (e: Effects)
        ensures
            final(self).same_vault(*old(self)),
            old(self).delivering ==> *final(self) == *old(self) && e.quiet(),
            !old(self).delivering ==> final(self).screen@ == ContentView::About && final(self).visible && !final(self).has_target && e.replaced && e.relayout && e.send is None
                && e.deliver is None && !e.resume_hotkey,
    {
        self.show_screen(Content::About)
    }

    fn show_screen(&mut self, screen: Content) -> (e: Effects)
        ensures
            final(self).same_vault(*old(self)),
            old(self).delivering ==> *final(self) == *old(self) && e.quiet(),
            !old(self).delivering ==> final(self).screen == screen && final(self).visible && !final(self).has_target && e.replaced && e.relayout && e.send is None && e.deliver is None
                && !e.resume_hotkey,
    {
        if self.delivering {
            return Effects::none();
        }
        self.has_target = false;
        self.screen = screen;
        self.visible = true;
        Effects { send: None, deliver: None, resume_hotkey: false, replaced: true, relayout: true }
    }

    /// Moves the list's selection to `selected`, clearing its inline
    /// message. Any other screen is left alone.
    pub fn select(&mut self, selected: usize) -> (e: Effects)
        ensures
            final(self).same_vault(*old(self)),
            final(self).visible == old(self).visible,
            final(self).has_target == old(self).has_target,
            old(self).screen is ShowingList ==> final(self).screen@ == plain_list(selected)
                && e.replaced,
            !(old(self).screen is ShowingList) ==> final(self).screen == old(self).screen
                && !e.replaced,
            e.send is None,
            e.deliver is None,
            !e.resume_hotkey,
            !e.relayout,
    {
        if let Content::ShowingList { .. } = self.screen {
            self.screen = Content::ShowingList { selected, message: None };
            Effects::redraw()
        } else {
            Effects::none()
        }
    }

    /// How many rows the list shows: the cached entries, up to `cap`.
    pub fn visible_rows(&self, cap: usize) -> (n: usize)
        ensures
            self.cached is None ==> n == 0,
            self.cached matches Some(c) ==> n == (if c.0.len() < cap {
                c.0.len()
            } else {
                cap
            }),
    {
        match &self.cached {
            None => 0,
            Some(c) => if c.0.len() < cap {
                c.0.len()
            } else {
                cap
            },
        }
    }
}

} // verus!
