use vstd::prelude::*;
use crate::text::{chars_of, trim_end_of, trimmed_end};

verus! {

/// A key as the injector names it: a named key, a character of the active
/// layout, or a raw key code.
#[derive(Clone, Copy, Debug, PartialEq, Eq, Hash, Structural)]
pub enum Key {
    Alt,
    Backspace,
    CapsLock,
    Control,
    Delete,
    DownArrow,
    End,
    Escape,
    F1,
    F10,
    F11,
    F12,
    F2,
    F3,
    F4,
    F5,
    F6,
    F7,
    F8,
    F9,
    Home,
    LeftArrow,
    Meta,
    Option,
    PageDown,
    PageUp,
    Return,
    RightArrow,
    Shift,
    Space,
    Tab,
    UpArrow,
    Numpad0,
    Numpad1,
    Numpad2,
    Numpad3,
    Numpad4,
    Numpad5,
    Numpad6,
    Numpad7,
    Numpad8,
    Numpad9,
    Cancel,
    Clear,
    Menu,
    Pause,
    Kana,
    Hangul,
    Junja,
    Final,
    Hanja,
    Kanji,
    Convert,
    Select,
    Print,
    Execute,
    Snapshot,
    Insert,
    Help,
    Sleep,
    Separator,
    Scroll,
    NumLock,
    RWin,
    Apps,
    Multiply,
    Add,
    Subtract,
    Decimal,
    Divide,
    Equals,
    NumpadEnter,
    RightShift,
    RightControl,
    RightAlt,
    Function,
    Command,
    Super,
    Windows,
    /// The key that produces this character in the active layout.
    Layout(char),
    /// The key with this code, whatever it produces.
    Raw(u16),
}

/// A key as the test-framework backend names it.
#[derive(Clone, Copy, Debug, PartialEq, Eq, Hash, Structural)]
pub enum TfcKey {
    Alt,
    DeleteOrBackspace,
    CapsLock,
    Control,
    ForwardDelete,
    DownArrow,
    End,
    Escape,
    F1,
    F10,
    F11,
    F12,
    F2,
    F3,
    F4,
    F5,
    F6,
    F7,
    F8,
    F9,
    Home,
    LeftArrow,
    PageDown,
    PageUp,
    ReturnOrEnter,
    RightArrow,
    Shift,
    Space,
    Tab,
    UpArrow,
    N0,
    N1,
    N2,
    N3,
    N4,
    N5,
    N6,
    N7,
    N8,
    N9,
    NumpadDecimal,
    NumpadClear,
    PlayPause,
    Print,
    PrintScreen,
    Insert,
    ScrollLock,
    NumLock,
    Meta,
    Apps,
    NumpadMultiply,
    NumpadPlus,
    NumpadMinus,
    NumpadDivide,
    NumpadEquals,
    NumpadEnter,
    RightShift,
    RightControl,
    RightAlt,
}

/// The backend's name for an injector key, where the backend has one.
pub open spec fn tfc_key_of(key: Key) -> Option<TfcKey> {
    match key {
        Key::Alt => Some(TfcKey::Alt),
        Key::Backspace => Some(TfcKey::DeleteOrBackspace),
        Key::CapsLock => Some(TfcKey::CapsLock),
        Key::Control => Some(TfcKey::Control),
        Key::Delete => Some(TfcKey::ForwardDelete),
        Key::DownArrow => Some(TfcKey::DownArrow),
        Key::End => Some(TfcKey::End),
        Key::Escape => Some(TfcKey::Escape),
        Key::F1 => Some(TfcKey::F1),
        Key::F10 => Some(TfcKey::F10),
        Key::F11 => Some(TfcKey::F11),
        Key::F12 => Some(TfcKey::F12),
        Key::F2 => Some(TfcKey::F2),
        Key::F3 => Some(TfcKey::F3),
        Key::F4 => Some(TfcKey::F4),
        Key::F5 => Some(TfcKey::F5),
        Key::F6 => Some(TfcKey::F6),
        Key::F7 => Some(TfcKey::F7),
        Key::F8 => Some(TfcKey::F8),
        Key::F9 => Some(TfcKey::F9),
        Key::Home => Some(TfcKey::Home),
        Key::LeftArrow => Some(TfcKey::LeftArrow),
        Key::PageDown => Some(TfcKey::PageDown),
        Key::PageUp => Some(TfcKey::PageUp),
        Key::Return => Some(TfcKey::ReturnOrEnter),
        Key::RightArrow => Some(TfcKey::RightArrow),
        Key::Shift => Some(TfcKey::Shift),
        Key::Space => Some(TfcKey::Space),
        Key::Tab => Some(TfcKey::Tab),
        Key::UpArrow => Some(TfcKey::UpArrow),
        Key::Numpad0 => Some(TfcKey::N0),
        Key::Numpad1 => Some(TfcKey::N1),
        Key::Numpad2 => Some(TfcKey::N2),
        Key::Numpad3 => Some(TfcKey::N3),
        Key::Numpad4 => Some(TfcKey::N4),
        Key::Numpad5 => Some(TfcKey::N5),
        Key::Numpad6 => Some(TfcKey::N6),
        Key::Numpad7 => Some(TfcKey::N7),
        Key::Numpad8 => Some(TfcKey::N8),
        Key::Numpad9 => Some(TfcKey::N9),
        Key::Decimal => Some(TfcKey::NumpadDecimal),
        Key::Clear => Some(TfcKey::NumpadClear),
        Key::Pause => Some(TfcKey::PlayPause),
        Key::Print => Some(TfcKey::Print),
        Key::Snapshot => Some(TfcKey::PrintScreen),
        Key::Insert => Some(TfcKey::Insert),
        Key::Scroll => Some(TfcKey::ScrollLock),
        Key::NumLock => Some(TfcKey::NumLock),
        Key::RWin => Some(TfcKey::Meta),
        Key::Apps => Some(TfcKey::Apps),
        Key::Multiply => Some(TfcKey::NumpadMultiply),
        Key::Add => Some(TfcKey::NumpadPlus),
        Key::Subtract => Some(TfcKey::NumpadMinus),
        Key::Divide => Some(TfcKey::NumpadDivide),
        Key::Equals => Some(TfcKey::NumpadEquals),
        Key::NumpadEnter => Some(TfcKey::NumpadEnter),
        Key::RightShift => Some(TfcKey::RightShift),
        Key::RightControl => Some(TfcKey::RightControl),
        Key::RightAlt => Some(TfcKey::RightAlt),
        Key::Meta => Some(TfcKey::Meta),
        Key::Command => Some(TfcKey::Meta),
        Key::Super => Some(TfcKey::Meta),
        Key::Windows => Some(TfcKey::Meta),
        _ => None,
    }
}

/// Translates an injector key into the backend's name for it. Keys that
/// the backend does not know, characters and raw codes among them, give
/// `None`.
pub fn convert_to_tfc_key(key: Key) -> (tfc_key: Option<TfcKey>)
    ensures
        tfc_key == tfc_key_of(key),
        key is Layout || key is Raw ==> tfc_key is None,
{
    let tfc_key = match key {
        Key::Alt => TfcKey::Alt,
        Key::Backspace => TfcKey::DeleteOrBackspace,
        Key::CapsLock => TfcKey::CapsLock,
        Key::Control => TfcKey::Control,
        Key::Delete => TfcKey::ForwardDelete,
        Key::DownArrow => TfcKey::DownArrow,
        Key::End => TfcKey::End,
        Key::Escape => TfcKey::Escape,
        Key::F1 => TfcKey::F1,
        Key::F10 => TfcKey::F10,
        Key::F11 => TfcKey::F11,
        Key::F12 => TfcKey::F12,
        Key::F2 => TfcKey::F2,
        Key::F3 => TfcKey::F3,
        Key::F4 => TfcKey::F4,
        Key::F5 => TfcKey::F5,
        Key::F6 => TfcKey::F6,
        Key::F7 => TfcKey::F7,
        Key::F8 => TfcKey::F8,
        Key::F9 => TfcKey::F9,
        Key::Home => TfcKey::Home,
        Key::LeftArrow => TfcKey::LeftArrow,
        Key::PageDown => TfcKey::PageDown,
        Key::PageUp => TfcKey::PageUp,
        Key::Return => TfcKey::ReturnOrEnter,
        Key::RightArrow => TfcKey::RightArrow,
        Key::Shift => TfcKey::Shift,
        Key::Space => TfcKey::Space,
        Key::Tab => TfcKey::Tab,
        Key::UpArrow => TfcKey::UpArrow,
        Key::Numpad0 => TfcKey::N0,
        Key::Numpad1 => TfcKey::N1,
        Key::Numpad2 => TfcKey::N2,
        Key::Numpad3 => TfcKey::N3,
        Key::Numpad4 => TfcKey::N4,
        Key::Numpad5 => TfcKey::N5,
        Key::Numpad6 => TfcKey::N6,
        Key::Numpad7 => TfcKey::N7,
        Key::Numpad8 => TfcKey::N8,
        Key::Numpad9 => TfcKey::N9,
        Key::Decimal => TfcKey::NumpadDecimal,
        Key::Clear => TfcKey::NumpadClear,
        Key::Pause => TfcKey::PlayPause,
        Key::Print => TfcKey::Print,
        Key::Snapshot => TfcKey::PrintScreen,
        Key::Insert => TfcKey::Insert,
        Key::Scroll => TfcKey::ScrollLock,
        Key::NumLock => TfcKey::NumLock,
        Key::RWin => TfcKey::Meta,
        Key::Apps => TfcKey::Apps,
        Key::Multiply => TfcKey::NumpadMultiply,
        Key::Add => TfcKey::NumpadPlus,
        Key::Subtract => TfcKey::NumpadMinus,
        Key::Divide => TfcKey::NumpadDivide,
        Key::Equals => TfcKey::NumpadEquals,
        Key::NumpadEnter => TfcKey::NumpadEnter,
        Key::RightShift => TfcKey::RightShift,
        Key::RightControl => TfcKey::RightControl,
        Key::RightAlt => TfcKey::RightAlt,
        Key::Meta => TfcKey::Meta,
        Key::Command => TfcKey::Meta,
        Key::Super => TfcKey::Meta,
        Key::Windows => TfcKey::Meta,
        _ => {
            return None;
        },
    };
    Some(tfc_key)
}

/// What is asked of the test-framework backend for a key.
#[derive(Clone, Copy, Debug, PartialEq, Eq, Structural)]
pub enum TfcRequest {
    /// Type this character.
    Char(char),
    /// Press or release this key.
    Key(TfcKey),
}

/// Which backend serves a request.
#[derive(Clone, Copy, Debug, PartialEq, Eq, Structural)]
pub enum Backend {
    /// The display server's own tool.
    Xdo,
    /// The keyboard or mouse that the caller installed.
    Custom,
    /// No backend: the request is dropped.
    Nothing,
}

/// Which backend serves a key event.
#[derive(Clone, Copy, Debug, PartialEq, Eq, Structural)]
pub enum KeyRoute {
    /// The test-framework backend, and the display server's own tool if
    /// that fails.
    Tfc(TfcRequest),
    /// The display server's own tool.
    Xdo,
    /// The keyboard that the caller installed.
    Custom,
    /// No backend: the event is dropped.
    Nothing,
}

/// What is asked of the test-framework backend for a key: a character of
/// the layout is typed, a key that the backend knows is pressed by its
/// name there, and nothing can be asked for any other key.
pub open spec fn tfc_request_of(key: Key) -> Option<TfcRequest> {
    match key {
        Key::Layout(character) => Some(TfcRequest::Char(character)),
        _ => match tfc_key_of(key) {
            Some(tfc_key) => Some(TfcRequest::Key(tfc_key)),
            None => None,
        },
    }
}

/// Which backend serves a mouse event, a key sequence or a question about
/// a key's state: the display server's tool under X11, else what the
/// caller installed, else nothing.
pub open spec fn backend_of(is_x11: bool, has_custom: bool) -> Backend {
    if is_x11 {
        Backend::Xdo
    } else if has_custom {
        Backend::Custom
    } else {
        Backend::Nothing
    }
}

/// Which backend serves a key event. Under X11 the test-framework backend
/// is asked first, where it is there and knows the key, with the display
/// server's tool behind it. Elsewhere the keyboard that the caller
/// installed is asked, if there is one.
pub open spec fn key_route_of(is_x11: bool, has_tfc: bool, has_custom: bool, key: Key) -> KeyRoute {
    if is_x11 {
        match tfc_request_of(key) {
            Some(request) => if has_tfc {
                KeyRoute::Tfc(request)
            } else {
                KeyRoute::Xdo
            },
            None => KeyRoute::Xdo,
        }
    } else if has_custom {
        KeyRoute::Custom
    } else {
        KeyRoute::Nothing
    }
}

/// Says what to ask of the test-framework backend for a key, if it can
/// be asked anything.
pub fn simulate_by_tfc(key: Key) -> (request: Option<TfcRequest>)
    ensures
        request == tfc_request_of(key),
{
    match key {
        Key::Layout(character) => Some(TfcRequest::Char(character)),
        _ => match convert_to_tfc_key(key) {
            Some(tfc_key) => Some(TfcRequest::Key(tfc_key)),
            None => None,
        },
    }
}

/// Picks the backend for a mouse event, a key sequence or a question
/// about a key's state.
pub fn select_backend(is_x11: bool, has_custom: bool) -> (backend: Backend)
    ensures
        backend == backend_of(is_x11, has_custom),
{
    if is_x11 {
        Backend::Xdo
    } else if has_custom {
        Backend::Custom
    } else {
        Backend::Nothing
    }
}

/// Picks the backend for a press or release of a key.
pub fn select_key_route(is_x11: bool, has_tfc: bool, has_custom: bool, key: Key) -> (route: KeyRoute)
    ensures
        route == key_route_of(is_x11, has_tfc, has_custom, key),
{
    if is_x11 {
        if !has_tfc {
            return KeyRoute::Xdo;
        }
        match simulate_by_tfc(key) {
            Some(request) => KeyRoute::Tfc(request),
            None => KeyRoute::Xdo,
        }
    } else if has_custom {
        KeyRoute::Custom
    } else {
        KeyRoute::Nothing
    }
}

/// A lock key whose light tells its state.
#[derive(Clone, Copy, Debug, PartialEq, Eq, Structural)]
pub enum Led {
    CapsLock,
    NumLock,
}

/// The light of a key, for the two lock keys that have one.
pub open spec fn led_of(key: Key) -> Option<Led> {
    match key {
        Key::CapsLock => Some(Led::CapsLock),
        Key::NumLock => Some(Led::NumLock),
        _ => None,
    }
}

/// Whether a text is the number one written in decimal: the digit 1,
/// after any number of zeros, after a plus sign or none.
pub open spec fn is_number_one(text: Seq<char>) -> bool {
    let start: int = if text.len() > 0 && text[0] == '+' {
        1
    } else {
        0
    };
    &&& start < text.len()
    &&& text.last() == '1'
    &&& forall|i: int| start <= i < text.len() - 1 ==> text[i] == '0'
}

/// Whether the brightness that a light reports says that it is on: the
/// number one, with nothing before it and at most white space after it.
pub open spec fn brightness_is_on(content: Seq<char>) -> bool {
    is_number_one(trimmed_end(content))
}

impl Led {
    /// The light of a key, if it has one.
    pub fn of(key: Key) -> (led: Option<Led>)
        ensures
            led == led_of(key),
    {
        match key {
            Key::CapsLock => Some(Led::CapsLock),
            Key::NumLock => Some(Led::NumLock),
            _ => None,
        }
    }

    /// The file in which the system reports the light's brightness.
    pub fn brightness_file(&self) -> (path: &'static str)
        ensures
            path@ == match self {
                Led::CapsLock => "/sys/class/leds/input1::capslock/brightness"@,
                Led::NumLock => "/sys/class/leds/input1::numlock/brightness"@,
            },
    {
        match self {
            Led::CapsLock => "/sys/class/leds/input1::capslock/brightness",
            Led::NumLock => "/sys/class/leds/input1::numlock/brightness",
        }
    }
}

/// Tells from a light's brightness whether it is on.
pub fn led_is_on(content: &str) -> (on: bool)
    ensures
        on == brightness_is_on(content@),
{
    let chars: Vec<char> = chars_of(content);
    let end: usize = trim_end_of(&chars, 0, chars.len());
    let ghost text = chars@.subrange(0, end as int);
    proof {
        assert(chars@.subrange(0, chars@.len() as int) =~= chars@);
        assert(text == trimmed_end(content@));
        assert(forall|i: int| 0 <= i < end ==> text[i] == chars@[i]);
    }
    if end == 0 {
        return false;
    }
    let start: usize = if chars[0] == '+' {
        1
    } else {
        0
    };
    if start >= end {
        return false;
    }
    if chars[end - 1] != '1' {
        return false;
    }
    let mut index: usize = start;
    while index < end - 1
        invariant
            start <= index <= end - 1,
            end <= chars@.len(),
            text == chars@.subrange(0, end as int),
            text == trimmed_end(content@),
            start == (if text.len() > 0 && text[0] == '+' {
                1int
            } else {
                0int
            }),
            forall|i: int| start <= i < index ==> text[i] == '0',
        decreases end - index,
    {
        if chars[index] != '0' {
            assert(text[index as int] == chars@[index as int]);
            assert(!is_number_one(text));
            return false;
        }
        index += 1;
    }
    true
}

/// Tells whether a lock key is on, from what the file of its light
/// holds. A key without a light is off, and so is one whose file could
/// not be read.
pub fn get_led_state(key: Key, content: Option<&str>) -> (on: bool)
    ensures
        on == (led_of(key) is Some && content is Some && brightness_is_on(content->0@)),
{
    match Led::of(key) {
        Some(_) => match content {
            Some(content) => led_is_on(content),
            None => false,
        },
        None => false,
    }
}

} // verus!
