//! Keyboard keys and key events as the popup and the hotkey recorder read
//! them, independent of any UI toolkit.

use vstd::prelude::*;

verus! {

/// A key. Letters, digits and function keys carry their index; every key
/// the logic doesn't tell apart is `Other`, with its name.
pub enum Key {
    /// `A` to `Z`.
    Letter(char),
    /// `0` to `9`, on the top row or the numpad.
    Digit(u8),
    /// `F1` (1), `F2` (2), and so on.
    Function(u8),
    ArrowUp,
    ArrowDown,
    ArrowLeft,
    ArrowRight,
    Space,
    Tab,
    Enter,
    Backspace,
    Insert,
    Delete,
    Home,
    End,
    PageUp,
    PageDown,
    Escape,
    ShiftLeft,
    ShiftRight,
    ControlLeft,
    ControlRight,
    AltLeft,
    AltRight,
    SuperLeft,
    SuperRight,
    Other(String),
}

/// A key going down or up.
pub struct KeyEvent {
    /// The key the layout says was pressed.
    pub key: Key,
    /// The key at the pressed position, when known.
    pub physical_key: Option<Key>,
    pub pressed: bool,
    /// An auto-repeat of a key already held.
    pub repeat: bool,
}

/// The decimal digit `d < 10`.
pub open spec fn digit_char(d: int) -> char {
    (d + ('0' as u32)) as char
}

/// The decimal text of `n`.
pub open spec fn small_decimal(n: u8) -> Seq<char> {
    if n < 10 {
        seq![digit_char(n as int)]
    } else if n < 100 {
        seq![digit_char(n as int / 10), digit_char(n as int % 10)]
    } else {
        seq![
            digit_char(n as int / 100),
            digit_char((n as int / 10) % 10),
            digit_char(n as int % 10),
        ]
    }
}

/// The modifier keys.
pub open spec fn is_modifier_spec(k: Key) -> bool {
    match k {
        Key::ShiftLeft | Key::ShiftRight | Key::ControlLeft | Key::ControlRight | Key::AltLeft
        | Key::AltRight | Key::SuperLeft | Key::SuperRight => true,
        _ => false,
    }
}

/// Whether `k` is a modifier key.
pub fn is_modifier_key(k: &Key) -> (b: bool)
    ensures
        b == is_modifier_spec(*k),
{
    match k {
        Key::ShiftLeft | Key::ShiftRight | Key::ControlLeft | Key::ControlRight | Key::AltLeft
        | Key::AltRight | Key::SuperLeft | Key::SuperRight => true,
        _ => false,
    }
}

/// The name of a key in a hotkey spec (`KeyV`, `Digit1`, `F5`, `ESCAPE`,
/// ...), for the keys a hotkey can use: letters, digits, `F1` to `F24`,
/// the arrows, and the named editing keys. `None` for any other key.
pub open spec fn key_name_spec(k: Key) -> Option<Seq<char>> {
    match k {
        Key::Letter(c) => if 'A' <= c <= 'Z' {
            Some("Key"@.push(c))
        } else {
            None
        },
        Key::Digit(d) => if d < 10 {
            Some("Digit"@ + small_decimal(d))
        } else {
            None
        },
        Key::Function(n) => if 1 <= n <= 24 {
            Some("F"@ + small_decimal(n))
        } else {
            None
        },
        Key::ArrowUp => Some("ArrowUp"@),
        Key::ArrowDown => Some("ArrowDown"@),
        Key::ArrowLeft => Some("ArrowLeft"@),
        Key::ArrowRight => Some("ArrowRight"@),
        Key::Space => Some("SPACE"@),
        Key::Tab => Some("TAB"@),
        Key::Enter => Some("ENTER"@),
        Key::Backspace => Some("BACKSPACE"@),
        Key::Insert => Some("INSERT"@),
        Key::Delete => Some("DELETE"@),
        Key::Home => Some("HOME"@),
        Key::End => Some("END"@),
        Key::PageUp => Some("PAGEUP"@),
        Key::PageDown => Some("PAGEDOWN"@),
        Key::Escape => Some("ESCAPE"@),
        _ => None,
    }
}

/// The decimal text of `n`.
fn small_decimal_chars(n: u8) -> (r: Vec<char>)
    ensures
        r@ == small_decimal(n),
{
    let mut r: Vec<char> = Vec::new();
    if n < 10 {
        r.push((n + 48u8) as char);
    } else if n < 100 {
        r.push((n / 10 + 48u8) as char);
        r.push((n % 10 + 48u8) as char);
    } else {
        r.push((n / 100 + 48u8) as char);
        r.push(((n / 10) % 10 + 48u8) as char);
        r.push((n % 10 + 48u8) as char);
    }
    proof {
        assert(r@ =~= small_decimal(n));
    }
    r
}

/// `prefix` followed by the decimal text of `n`.
fn with_number(prefix: &str, n: u8) -> (r: Vec<char>)
    ensures
        r@ == prefix@ + small_decimal(n),
{
    let mut r = crate::text::chars_of(prefix);
    let d = small_decimal_chars(n);
    let mut i: usize = 0;
    let ghost start = r@;
    while i < d.len()
        invariant
            i <= d.len(),
            start == prefix@,
            r@ == start + d@.take(i as int),
        decreases d.len() - i,
    {
        r.push(d[i]);
        i += 1;
        proof {
            assert(d@.take(i as int) =~= d@.take(i - 1).push(d@[i - 1]));
        }
    }
    proof {
        assert(d@.take(d.len() as int) =~= d@);
    }
    r
}

/// The hotkey-spec name of `k`, as characters.
pub fn key_name(k: &Key) -> (r: Option<Vec<char>>)
    ensures
        match r {
            Some(v) => key_name_spec(*k) == Some(v@),
            None => key_name_spec(*k) is None,
        },
{
    match k {
        Key::Letter(c) => if 'A' <= *c && *c <= 'Z' {
            let mut v = crate::text::chars_of("Key");
            v.push(*c);
            Some(v)
        } else {
            None
        },
        Key::Digit(d) => if *d < 10 {
            Some(with_number("Digit", *d))
        } else {
            None
        },
        Key::Function(n) => if 1 <= *n && *n <= 24 {
            Some(with_number("F", *n))
        } else {
            None
        },
        Key::ArrowUp => Some(crate::text::chars_of("ArrowUp")),
        Key::ArrowDown => Some(crate::text::chars_of("ArrowDown")),
        Key::ArrowLeft => Some(crate::text::chars_of("ArrowLeft")),
        Key::ArrowRight => Some(crate::text::chars_of("ArrowRight")),
        Key::Space => Some(crate::text::chars_of("SPACE")),
        Key::Tab => Some(crate::text::chars_of("TAB")),
        Key::Enter => Some(crate::text::chars_of("ENTER")),
        Key::Backspace => Some(crate::text::chars_of("BACKSPACE")),
        Key::Insert => Some(crate::text::chars_of("INSERT")),
        Key::Delete => Some(crate::text::chars_of("DELETE")),
        Key::Home => Some(crate::text::chars_of("HOME")),
        Key::End => Some(crate::text::chars_of("END")),
        Key::PageUp => Some(crate::text::chars_of("PAGEUP")),
        Key::PageDown => Some(crate::text::chars_of("PAGEDOWN")),
        Key::Escape => Some(crate::text::chars_of("ESCAPE")),
        _ => None,
    }
}

/// The key's own name, as a user reads it in a message (`V`, `Num1`,
/// `F25`, `Colon`, ...).
pub open spec fn key_label_spec(k: Key) -> Seq<char> {
    match k {
        Key::Letter(c) => seq![c],
        Key::Digit(d) => "Num"@ + small_decimal(d),
        Key::Function(n) => "F"@ + small_decimal(n),
        Key::ArrowUp => "ArrowUp"@,
        Key::ArrowDown => "ArrowDown"@,
        Key::ArrowLeft => "ArrowLeft"@,
        Key::ArrowRight => "ArrowRight"@,
        Key::Space => "Space"@,
        Key::Tab => "Tab"@,
        Key::Enter => "Enter"@,
        Key::Backspace => "Backspace"@,
        Key::Insert => "Insert"@,
        Key::Delete => "Delete"@,
        Key::Home => "Home"@,
        Key::End => "End"@,
        Key::PageUp => "PageUp"@,
        Key::PageDown => "PageDown"@,
        Key::Escape => "Escape"@,
        Key::ShiftLeft => "ShiftLeft"@,
        Key::ShiftRight => "ShiftRight"@,
        Key::ControlLeft => "ControlLeft"@,
        Key::ControlRight => "ControlRight"@,
        Key::AltLeft => "AltLeft"@,
        Key::AltRight => "AltRight"@,
        Key::SuperLeft => "SuperLeft"@,
        Key::SuperRight => "SuperRight"@,
        Key::Other(name) => name@,
    }
}

/// The key's own name (see [`key_label_spec`]).
pub fn key_label(k: &Key) -> (r: Vec<char>)
    ensures
        r@ == key_label_spec(*k),
{
    let s: &str = match k {
        Key::Letter(c) => {
            let mut v: Vec<char> = Vec::new();
            v.push(*c);
            proof {
                assert(v@ =~= key_label_spec(*k));
            }
            return v;
        },
        Key::Digit(d) => {
            return with_number("Num", *d);
        },
        Key::Function(n) => {
            return with_number("F", *n);
        },
        Key::Other(name) => {
            return crate::text::chars_of(name.as_str());
        },
        Key::ArrowUp => "ArrowUp",
        Key::ArrowDown => "ArrowDown",
        Key::ArrowLeft => "ArrowLeft",
        Key::ArrowRight => "ArrowRight",
        Key::Space => "Space",
        Key::Tab => "Tab",
        Key::Enter => "Enter",
        Key::Backspace => "Backspace",
        Key::Insert => "Insert",
        Key::Delete => "Delete",
        Key::Home => "Home",
        Key::End => "End",
        Key::PageUp => "PageUp",
        Key::PageDown => "PageDown",
        Key::Escape => "Escape",
        Key::ShiftLeft => "ShiftLeft",
        Key::ShiftRight => "ShiftRight",
        Key::ControlLeft => "ControlLeft",
        Key::ControlRight => "ControlRight",
        Key::AltLeft => "AltLeft",
        Key::AltRight => "AltRight",
        Key::SuperLeft => "SuperLeft",
        Key::SuperRight => "SuperRight",
    };
    crate::text::chars_of(s)
}

/// The list row a digit key selects: `1` to `9` are rows 0 to 8, `0` is
/// row 9.
pub open spec fn digit_index_spec(k: Key) -> Option<usize> {
    match k {
        Key::Digit(d) => if d == 0 {
            Some(9)
        } else if d < 10 {
            Some((d - 1) as usize)
        } else {
            None
        },
        _ => None,
    }
}

/// The row a digit key selects, if `k` is a digit.
pub fn digit_index(k: &Key) -> (r: Option<usize>)
    ensures
        r == digit_index_spec(*k),
{
    match k {
        Key::Digit(d) => if *d == 0 {
            Some(9)
        } else if *d < 10 {
            Some((*d - 1) as usize)
        } else {
            None
        },
        _ => None,
    }
}

/// The keys the popup already binds by their name, which a digit's
/// position must not take over (with NumLock off, numpad digits are these).
pub open spec fn binds_by_name_spec(k: Key) -> bool {
    match k {
        Key::ArrowUp | Key::ArrowDown | Key::ArrowLeft | Key::ArrowRight | Key::Home | Key::End
        | Key::PageUp | Key::PageDown | Key::Insert | Key::Delete | Key::Enter => true,
        _ => false,
    }
}

/// Whether the popup binds `k` by its name.
pub fn binds_by_name(k: &Key) -> (b: bool)
    ensures
        b == binds_by_name_spec(*k),
{
    match k {
        Key::ArrowUp | Key::ArrowDown | Key::ArrowLeft | Key::ArrowRight | Key::Home | Key::End
        | Key::PageUp | Key::PageDown | Key::Insert | Key::Delete | Key::Enter => true,
        _ => false,
    }
}

/// The row one event selects: by the key's name when it is a digit, else
/// by its position, unless the name is already bound to something else.
pub open spec fn event_digit(e: KeyEvent) -> Option<usize> {
    if !e.pressed {
        None
    } else if digit_index_spec(e.key) is Some {
        digit_index_spec(e.key)
    } else if binds_by_name_spec(e.key) {
        None
    } else {
        match e.physical_key {
            Some(p) => digit_index_spec(p),
            None => None,
        }
    }
}

/// The first row a frame's events select with a digit key.
pub open spec fn digit_pressed_spec(events: Seq<KeyEvent>) -> Option<usize>
    decreases events.len(),
{
    if events.len() == 0 {
        None
    } else if event_digit(events[0]) is Some {
        event_digit(events[0])
    } else {
        digit_pressed_spec(events.drop_first())
    }
}

/// The list row a quick-select digit was pressed for this frame. Matches
/// the key's position as well as its name: with Shift held, the top-row
/// `1` may be named `!`, and Shift+1 must still select the first row.
pub fn digit_pressed(events: &Vec<KeyEvent>) -> (r: Option<usize>)
    ensures
        r == digit_pressed_spec(events@),
{
    let mut i: usize = 0;
    proof {
        assert(events@.skip(0) =~= events@);
    }
    while i < events.len()
        invariant
            i <= events.len(),
            digit_pressed_spec(events@) == digit_pressed_spec(events@.skip(i as int)),
        decreases events.len() - i,
    {
        proof {
            assert(events@.skip(i as int).drop_first() =~= events@.skip(i + 1));
        }
        let e = &events[i];
        if e.pressed {
            let by_name = digit_index(&e.key);
            if by_name.is_some() {
                return by_name;
            }
            if !binds_by_name(&e.key) {
                if let Some(p) = &e.physical_key {
                    let by_position = digit_index(p);
                    if by_position.is_some() {
                        return by_position;
                    }
                }
            }
        }
        i += 1;
    }
    None
}

} // verus!
