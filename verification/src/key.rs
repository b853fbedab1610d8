use vstd::prelude::*;
use crate::error::KeyboardError;

verus! {

/// A key as the local platform's input layer names it.
///
/// This is what the translation tables map logical keys and key positions
/// to, and what is handed to whatever synthesizes key events.
#[derive(Clone, Copy, Debug, PartialEq, Eq, Hash, Structural)]
pub enum Key {
    // Modifier and lock keys.
    Alt,
    AltGr,
    ControlLeft,
    ControlRight,
    MetaLeft,
    MetaRight,
    ShiftLeft,
    ShiftRight,
    CapsLock,
    NumLock,
    ScrollLock,
    // Editing and navigation keys.
    Backspace,
    Delete,
    Insert,
    Return,
    Space,
    Tab,
    Escape,
    Home,
    End,
    PageUp,
    PageDown,
    UpArrow,
    DownArrow,
    LeftArrow,
    RightArrow,
    PrintScreen,
    Pause,
    Apps,
    Help,
    Function,
    // Function keys.
    F1,
    F2,
    F3,
    F4,
    F5,
    F6,
    F7,
    F8,
    F9,
    F10,
    F11,
    F12,
    F13,
    F14,
    F15,
    F16,
    F17,
    F18,
    F19,
    F20,
    // The digit row.
    BackQuote,
    Num1,
    Num2,
    Num3,
    Num4,
    Num5,
    Num6,
    Num7,
    Num8,
    Num9,
    Num0,
    Minus,
    Equal,
    // The three letter rows, left to right.
    KeyQ,
    KeyW,
    KeyE,
    KeyR,
    KeyT,
    KeyY,
    KeyU,
    KeyI,
    KeyO,
    KeyP,
    LeftBracket,
    RightBracket,
    KeyA,
    KeyS,
    KeyD,
    KeyF,
    KeyG,
    KeyH,
    KeyJ,
    KeyK,
    KeyL,
    SemiColon,
    Quote,
    BackSlash,
    IntlBackslash,
    KeyZ,
    KeyX,
    KeyC,
    KeyV,
    KeyB,
    KeyN,
    KeyM,
    Comma,
    Dot,
    Slash,
    // The numeric keypad.
    KpReturn,
    KpMinus,
    KpPlus,
    KpMultiply,
    KpDivide,
    KpDecimal,
    KpDelete,
    Kp0,
    Kp1,
    Kp2,
    Kp3,
    Kp4,
    Kp5,
    Kp6,
    Kp7,
    Kp8,
    Kp9,
    // Volume keys.
    VolumeDown,
    VolumeUp,
    VolumeMute,
    // Keys of input methods and of older keyboards.
    Cancel,
    Clear,
    Kana,
    Hangul,
    Junja,
    Final,
    Hanja,
    Hanji,
    Convert,
    Print,
    Select,
    Execute,
    Sleep,
    Separator,
    /// A key that the platform reports only by its code.
    Unknown(u32),
}

impl Key {
    /// The key with control and meta exchanged, on either side of the keyboard.
    pub open spec fn spec_swap_modifier(self) -> Key {
        match self {
            Key::ControlLeft => Key::MetaLeft,
            Key::MetaLeft => Key::ControlLeft,
            Key::ControlRight => Key::MetaRight,
            Key::MetaRight => Key::ControlRight,
            _ => self,
        }
    }

    /// Accepts a key that the platform's code table knows, and refuses one
    /// that it could only report as `Unknown`.
    pub fn known(self) -> (checked: Result<Key, KeyboardError>)
        ensures
            self is Unknown ==> checked == Err::<Key, KeyboardError>(KeyboardError::UnmappableKey),
            !(self is Unknown) ==> checked == Ok::<Key, KeyboardError>(self),
    {
        match self {
            Key::Unknown(_) => Err(KeyboardError::UnmappableKey),
            _ => Ok(self),
        }
    }

    /// Swapping control and meta twice gives the key back.
    pub proof fn lemma_swap_modifier_involution(key: Key)
        ensures
            key.spec_swap_modifier().spec_swap_modifier() == key,
    {
    }
}

} // verus!
