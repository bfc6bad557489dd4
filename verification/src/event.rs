//! Translation of the display server's input events into the overlay's
//! vocabulary.

use vstd::prelude::*;

verus! {

pub const KEY_BACKSPACE: u32 = 0xff08;
pub const KEY_TAB: u32 = 0xff09;
pub const KEY_RETURN: u32 = 0xff0d;
pub const KEY_ESCAPE: u32 = 0xff1b;
pub const KEY_HOME: u32 = 0xff50;
pub const KEY_PAGE_UP: u32 = 0xff55;
pub const KEY_PAGE_DOWN: u32 = 0xff56;
pub const KEY_END: u32 = 0xff57;
pub const KEY_CAPS_LOCK: u32 = 0xffe5;

pub const BUTTON_LEFT: u32 = 272;
pub const BUTTON_RIGHT: u32 = 273;
pub const BUTTON_MIDDLE: u32 = 274;
pub const BUTTON_BACK: u32 = 275;
pub const BUTTON_FORWARD: u32 = 276;

/// A key that is known by its name.
#[derive(Debug, Clone, Copy, PartialEq, Eq, Structural)]
pub enum Named {
    Tab,
    Escape,
    Enter,
    Backspace,
    Home,
    End,
    PageUp,
    PageDown,
    CapsLock,
}

/// A key as the overlay sees it.
#[derive(Debug, Clone, Copy, PartialEq, Eq, Structural)]
pub enum Key {
    Named(Named),
    Character(char),
    Unidentified,
}

/// The modifier state as the seat reports it.
#[derive(Debug, Clone, Copy, PartialEq, Eq, Structural)]
pub struct SeatModifiers {
    pub ctrl: bool,
    pub alt: bool,
    pub shift: bool,
    pub caps_lock: bool,
    pub logo: bool,
    pub num_lock: bool,
}

/// The modifier set as the overlay sees it.
#[derive(Debug, Clone, Copy, PartialEq, Eq, Structural)]
pub struct Modifiers {
    pub ctrl: bool,
    pub shift: bool,
    pub alt: bool,
    pub logo: bool,
}

/// A key press or release as the seat reports it.
#[derive(Debug, Clone)]
pub struct KeyEvent {
    pub keysym: u32,
    pub utf8: Option<String>,
}

/// A keyboard event as the overlay sees it.
#[derive(Debug)]
pub enum KeyboardEvent {
    KeyPressed { key: Key, modifiers: Modifiers, text: Option<String> },
    KeyReleased { key: Key, modifiers: Modifiers },
    ModifiersChanged(Modifiers),
}

/// A pointer button.
#[derive(Debug, Clone, Copy, PartialEq, Eq, Structural)]
pub enum Button {
    Left,
    Right,
    Middle,
    Back,
    Forward,
    Other(u32),
}

/// What happened to the pointer, as the seat reports it.
#[derive(Debug, Clone, Copy, PartialEq, Eq, Structural)]
pub enum PointerEventKind {
    Enter,
    Leave,
    Motion,
    Press { button: u32 },
    Release { button: u32 },
    Axis,
}

/// A pointer event as the overlay sees it.
#[derive(Debug, Clone, Copy, PartialEq, Eq, Structural)]
pub enum MouseEvent {
    CursorEntered,
    CursorLeft,
    CursorMoved,
    ButtonPressed(Button),
    ButtonReleased(Button),
}

/// The character that a key symbol stands for, if it stands for one.
pub uninterp spec fn keysym_char(raw: u32) -> Option<char>;

/// Whether a key symbol lies in one of the two printable Latin-1 ranges.
pub open spec fn is_latin1(raw: u32) -> bool {
    0x20 <= raw <= 0x7e || 0xa0 <= raw <= 0xff
}

/// The Latin-1 character with a symbol's number.
pub open spec fn latin1_char(raw: u32) -> char {
    raw as u8 as char
}

/// `xkeysym::Keysym::key_char`: the character of a key symbol. The result
/// depends on the symbol alone; in the two Latin-1 ranges it is the
/// character with the symbol's own number.
#[verifier::external_body]
fn key_char(raw: u32) -> (c: Option<char>)
    ensures
        c == keysym_char(raw),
        is_latin1(raw) ==> c == Some(latin1_char(raw)),
{
    xkeysym::Keysym::new(raw).key_char()
}

/// The name of a key symbol, for the nine symbols that have one.
pub open spec fn name_of(raw: u32) -> Option<Named> {
    if raw == KEY_TAB {
        Some(Named::Tab)
    } else if raw == KEY_ESCAPE {
        Some(Named::Escape)
    } else if raw == KEY_RETURN {
        Some(Named::Enter)
    } else if raw == KEY_BACKSPACE {
        Some(Named::Backspace)
    } else if raw == KEY_HOME {
        Some(Named::Home)
    } else if raw == KEY_END {
        Some(Named::End)
    } else if raw == KEY_PAGE_UP {
        Some(Named::PageUp)
    } else if raw == KEY_PAGE_DOWN {
        Some(Named::PageDown)
    } else if raw == KEY_CAPS_LOCK {
        Some(Named::CapsLock)
    } else {
        None
    }
}

/// The key of a symbol whose character is `ch`: the named key where the
/// symbol has a name, else the character, else unidentified.
pub open spec fn key_of(raw: u32, ch: Option<char>) -> Key {
    match name_of(raw) {
        Some(name) => Key::Named(name),
        None => match ch {
            Some(c) => Key::Character(c),
            None => Key::Unidentified,
        },
    }
}

/// The name of a key symbol, if it has one.
pub fn named_key(raw: u32) -> (n: Option<Named>)
    ensures
        n == name_of(raw),
{
    if raw == KEY_TAB {
        Some(Named::Tab)
    } else if raw == KEY_ESCAPE {
        Some(Named::Escape)
    } else if raw == KEY_RETURN {
        Some(Named::Enter)
    } else if raw == KEY_BACKSPACE {
        Some(Named::Backspace)
    } else if raw == KEY_HOME {
        Some(Named::Home)
    } else if raw == KEY_END {
        Some(Named::End)
    } else if raw == KEY_PAGE_UP {
        Some(Named::PageUp)
    } else if raw == KEY_PAGE_DOWN {
        Some(Named::PageDown)
    } else if raw == KEY_CAPS_LOCK {
        Some(Named::CapsLock)
    } else {
        None
    }
}

/// The key of a symbol, given the character that the symbol stands for.
pub fn key_from_char(raw: u32, ch: Option<char>) -> (k: Key)
    ensures
        k == key_of(raw, ch),
{
    match named_key(raw) {
        Some(name) => Key::Named(name),
        None => match ch {
            Some(c) => Key::Character(c),
            None => Key::Unidentified,
        },
    }
}

/// The key of a symbol.
pub fn key_convert_key(raw: u32) -> (k: Key)
    ensures
        k == key_of(raw, keysym_char(raw)),
        is_latin1(raw) ==> k == Key::Character(latin1_char(raw)),
{
    let ch = key_char(raw);
    key_from_char(raw, ch)
}

/// The overlay's modifier set for a seat's modifier state; empty where the
/// seat has reported none yet.
pub open spec fn modifiers_of(m: Option<SeatModifiers>) -> Modifiers {
    match m {
        Some(mods) => Modifiers {
            ctrl: mods.ctrl,
            shift: mods.shift,
            alt: mods.alt,
            logo: mods.logo,
        },
        None => Modifiers { ctrl: false, shift: false, alt: false, logo: false },
    }
}

/// Translates the seat's modifier state.
pub fn key_convert_modifiers(m: Option<SeatModifiers>) -> (r: Modifiers)
    ensures
        r == modifiers_of(m),
{
    match m {
        Some(mods) => Modifiers {
            ctrl: mods.ctrl,
            shift: mods.shift,
            alt: mods.alt,
            logo: mods.logo,
        },
        None => Modifiers { ctrl: false, shift: false, alt: false, logo: false },
    }
}

/// The button of a button code: five codes have a name, every other code
/// stands for itself.
pub open spec fn button_of(code: u32) -> Button {
    if code == BUTTON_LEFT {
        Button::Left
    } else if code == BUTTON_RIGHT {
        Button::Right
    } else if code == BUTTON_MIDDLE {
        Button::Middle
    } else if code == BUTTON_BACK {
        Button::Back
    } else if code == BUTTON_FORWARD {
        Button::Forward
    } else {
        Button::Other(code)
    }
}

/// No two button codes give the same button, and a code outside the table
/// never gives one of the five named buttons.
pub proof fn law_buttons_are_distinct(a: u32, b: u32)
    ensures
        button_of(a) == button_of(b) ==> a == b,
        !(BUTTON_LEFT <= a <= BUTTON_FORWARD) ==> button_of(a) == Button::Other(a),
{
}

/// Translates a pointer button code.
pub fn mouse_convert_button(code: u32) -> (b: Button)
    ensures
        b == button_of(code),
{
    if code == BUTTON_LEFT {
        Button::Left
    } else if code == BUTTON_RIGHT {
        Button::Right
    } else if code == BUTTON_MIDDLE {
        Button::Middle
    } else if code == BUTTON_BACK {
        Button::Back
    } else if code == BUTTON_FORWARD {
        Button::Forward
    } else {
        Button::Other(code)
    }
}

/// The keyboard event of a key press or release, given the character that
/// the key's symbol stands for.
pub open spec fn keypress_of(
    event: KeyEvent,
    ch: Option<char>,
    modifiers: Option<SeatModifiers>,
    released: bool,
) -> KeyboardEvent {
    if released {
        KeyboardEvent::KeyReleased {
            key: key_of(event.keysym, ch),
            modifiers: modifiers_of(modifiers),
        }
    } else {
        KeyboardEvent::KeyPressed {
            key: key_of(event.keysym, ch),
            modifiers: modifiers_of(modifiers),
            text: event.utf8,
        }
    }
}

/// Translates a key press or release.
pub fn keypress_event(event: KeyEvent, modifiers: Option<SeatModifiers>, released: bool) -> (r:
    KeyboardEvent)
    ensures
        r == keypress_of(event, keysym_char(event.keysym), modifiers, released),
        is_latin1(event.keysym) ==> r == keypress_of(
            event,
            Some(latin1_char(event.keysym)),
            modifiers,
            released,
        ),
{
    let key = key_convert_key(event.keysym);
    let mods = key_convert_modifiers(modifiers);
    if released {
        KeyboardEvent::KeyReleased { key, modifiers: mods }
    } else {
        KeyboardEvent::KeyPressed { key, modifiers: mods, text: event.utf8 }
    }
}

/// Translates a change of the seat's modifier state.
pub fn modifiers_event(modifiers: SeatModifiers) -> (r: KeyboardEvent)
    ensures
        r == KeyboardEvent::ModifiersChanged(modifiers_of(Some(modifiers))),
{
    KeyboardEvent::ModifiersChanged(key_convert_modifiers(Some(modifiers)))
}

/// The overlay's event for a pointer event. Enter, leave and motion map
/// one to one, press and release carry the translated button, and a
/// scroll counts as a press of the left button.
pub open spec fn mouse_event_of(kind: PointerEventKind) -> MouseEvent {
    match kind {
        PointerEventKind::Enter => MouseEvent::CursorEntered,
        PointerEventKind::Leave => MouseEvent::CursorLeft,
        PointerEventKind::Motion => MouseEvent::CursorMoved,
        PointerEventKind::Press { button } => MouseEvent::ButtonPressed(button_of(button)),
        PointerEventKind::Release { button } => MouseEvent::ButtonReleased(button_of(button)),
        PointerEventKind::Axis => MouseEvent::ButtonPressed(Button::Left),
    }
}

/// Translates a pointer event.
pub fn mouse_event(kind: PointerEventKind) -> (r: MouseEvent)
    ensures
        r == mouse_event_of(kind),
{
    match kind {
        PointerEventKind::Enter => MouseEvent::CursorEntered,
        PointerEventKind::Leave => MouseEvent::CursorLeft,
        PointerEventKind::Motion => MouseEvent::CursorMoved,
        PointerEventKind::Press { button } => MouseEvent::ButtonPressed(
            mouse_convert_button(button),
        ),
        PointerEventKind::Release { button } => MouseEvent::ButtonReleased(
            mouse_convert_button(button),
        ),
        PointerEventKind::Axis => MouseEvent::ButtonPressed(Button::Left),
    }
}

impl Clone for KeyboardEvent {
    /// A copy that equals the event.
    fn clone(&self) -> (r: Self)
        ensures
            r == *self,
    {
        match self {
            KeyboardEvent::KeyPressed { key, modifiers, text } => KeyboardEvent::KeyPressed {
                key: *key,
                modifiers: *modifiers,
                text: match text {
                    Some(t) => Some(t.clone()),
                    None => None,
                },
            },
            KeyboardEvent::KeyReleased { key, modifiers } => KeyboardEvent::KeyReleased {
                key: *key,
                modifiers: *modifiers,
            },
            KeyboardEvent::ModifiersChanged(modifiers) => KeyboardEvent::ModifiersChanged(
                *modifiers,
            ),
        }
    }
}

} // verus!
