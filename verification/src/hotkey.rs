//! The global hotkey: what a configured spec (`Ctrl+Alt+KeyV`) names, read
//! by `global-hotkey`, and the decisions around changing it. Registering
//! with the operating system is the caller's part.

use vstd::prelude::*;

use global_hotkey::hotkey::HotKey;

verus! {

#[verifier::external_type_specification]
#[verifier::external_body]
pub struct ExHotKey(HotKey);

/// What `global-hotkey` reads from a hotkey spec: the id of the combination
/// it names (its modifiers and key; two specs for one combination share
/// it), or the error's text.
pub uninterp spec fn hotkey_parse(spec: Seq<char>) -> Result<u32, Seq<char>>;

/// A hotkey read from a spec, with its id.
pub struct ParsedHotkey {
    pub hotkey: HotKey,
    pub id: u32,
}

/// `HotKey`'s `FromStr` (`global_hotkey::hotkey::parse_hotkey`): the
/// combination a spec names, with its id, or the parse error's text. It
/// depends on the spec alone.
#[verifier::external_body]
fn parse_hotkey(spec: &str) -> (r: Result<ParsedHotkey, String>)
    ensures
        match hotkey_parse(spec@) {
            Ok(id) => r matches Ok(p) && p.id == id,
            Err(m) => r matches Err(e) && e@ == m,
        },
{
    spec.parse::<HotKey>().map(|hotkey| ParsedHotkey { id: hotkey.id, hotkey }).map_err(|e| e.to_string())
}

/// The hotkey a configured spec names, to register at start, or why the
/// spec is not a hotkey.
pub fn hotkey_from_spec(spec: &str) -> (r: Result<ParsedHotkey, String>)
    ensures
        match hotkey_parse(spec@) {
            Ok(id) => r matches Ok(p) && p.id == id,
            Err(m) => r matches Err(e) && e@ == m,
        },
{
    parse_hotkey(spec)
}

/// What changing the hotkey to a new spec comes to.
pub enum HotkeySwap {
    /// The same combination as the current one: nothing to do.
    Unchanged,
    /// Register this one; the current one stays until that succeeds.
    Register(ParsedHotkey),
    /// The spec is not a hotkey, with why; the current one stays.
    Refused(String),
}

/// Changing the registered hotkey, whose id is `current`, to `spec`.
pub fn plan_hotkey_swap(current: u32, spec: &str) -> (s: HotkeySwap)
    ensures
        match hotkey_parse(spec@) {
            Err(m) => s matches HotkeySwap::Refused(e) && e@ == m,
            Ok(id) => if id == current {
                s is Unchanged
            } else {
                s matches HotkeySwap::Register(p) && p.id == id
            },
        },
{
    match parse_hotkey(spec) {
        Err(e) => HotkeySwap::Refused(e),
        Ok(p) => if p.id == current {
            HotkeySwap::Unchanged
        } else {
            HotkeySwap::Register(p)
        },
    }
}

/// After trying to register the new hotkey `new_id` in place of `current`:
/// the id now in force, and whether to drop the old registration. The new
/// one is registered first, so a failure leaves the old one in force and
/// the app is never without a hotkey.
pub fn after_register(current: u32, new_id: u32, registered: bool) -> (r: (u32, bool))
    ensures
        r == (if registered {
            (new_id, true)
        } else {
            (current, false)
        }),
{
    if registered {
        (new_id, true)
    } else {
        (current, false)
    }
}

/// Whether a hotkey event summons the popup: a press of the hotkey in
/// force, not its release and not another hotkey's event.
pub fn summons(current: u32, event_id: u32, pressed: bool) -> (b: bool)
    ensures
        b == (event_id == current && pressed),
{
    event_id == current && pressed
}

} // verus!
