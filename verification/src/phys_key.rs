use vstd::prelude::*;

verus! {

/// The position of a key on the keyboard, named after what an ANSI US layout
/// prints on it. A position says nothing of the character that the active
/// layout produces there.
///
/// Each position has a fixed number on the wire, given by
/// [`PhysKeyCode::value`]: positions are numbered from 0 in the order in
/// which they are declared.
#[derive(Clone, Copy, Debug, PartialEq, Eq, Hash, Structural)]
pub enum PhysKeyCode {
    // Modifier and lock keys.
    AltLeft,
    AltRight,
    ControlLeft,
    ControlRight,
    MetaLeft,
    MetaRight,
    ShiftLeft,
    ShiftRight,
    CapsLock,
    NumLock,
    ScrollLock,
    // Editing and navigation keys.
    Backspace,
    Delete,
    Insert,
    Return,
    Space,
    Tab,
    Escape,
    Home,
    End,
    PageUp,
    PageDown,
    UpArrow,
    DownArrow,
    LeftArrow,
    RightArrow,
    PrintScreen,
    Pause,
    Menu,
    Help,
    Function,
    // Function keys.
    F1,
    F2,
    F3,
    F4,
    F5,
    F6,
    F7,
    F8,
    F9,
    F10,
    F11,
    F12,
    F13,
    F14,
    F15,
    F16,
    F17,
    F18,
    F19,
    F20,
    // The digit row.
    BackQuote,
    Num1,
    Num2,
    Num3,
    Num4,
    Num5,
    Num6,
    Num7,
    Num8,
    Num9,
    Num0,
    Minus,
    Equal,
    // The three letter rows, left to right.
    KeyQ,
    KeyW,
    KeyE,
    KeyR,
    KeyT,
    KeyY,
    KeyU,
    KeyI,
    KeyO,
    KeyP,
    LeftBracket,
    RightBracket,
    KeyA,
    KeyS,
    KeyD,
    KeyF,
    KeyG,
    KeyH,
    KeyJ,
    KeyK,
    KeyL,
    SemiColon,
    Quote,
    BackSlash,
    IntlBackslash,
    KeyZ,
    KeyX,
    KeyC,
    KeyV,
    KeyB,
    KeyN,
    KeyM,
    Comma,
    Dot,
    Slash,
    // The numeric keypad.
    KpReturn,
    KpMinus,
    KpPlus,
    KpMultiply,
    KpDivide,
    KpDecimal,
    KpDelete,
    Kp0,
    Kp1,
    Kp2,
    Kp3,
    Kp4,
    Kp5,
    Kp6,
    Kp7,
    Kp8,
    Kp9,
    // Volume keys.
    VolumeDown,
    VolumeUp,
    VolumeMute,
}

/// The number of key positions.
pub const PHYS_KEY_COUNT: i32 = 119;

impl PhysKeyCode {
    /// The name of the position.
    pub open spec fn spec_name(&self) -> Seq<char> {
        match self {
            PhysKeyCode::AltLeft => "AltLeft"@,
            PhysKeyCode::AltRight => "AltRight"@,
            PhysKeyCode::ControlLeft => "ControlLeft"@,
            PhysKeyCode::ControlRight => "ControlRight"@,
            PhysKeyCode::MetaLeft => "MetaLeft"@,
            PhysKeyCode::MetaRight => "MetaRight"@,
            PhysKeyCode::ShiftLeft => "ShiftLeft"@,
            PhysKeyCode::ShiftRight => "ShiftRight"@,
            PhysKeyCode::CapsLock => "CapsLock"@,
            PhysKeyCode::NumLock => "NumLock"@,
            PhysKeyCode::ScrollLock => "ScrollLock"@,
            PhysKeyCode::Backspace => "Backspace"@,
            PhysKeyCode::Delete => "Delete"@,
            PhysKeyCode::Insert => "Insert"@,
            PhysKeyCode::Return => "Return"@,
            PhysKeyCode::Space => "Space"@,
            PhysKeyCode::Tab => "Tab"@,
            PhysKeyCode::Escape => "Escape"@,
            PhysKeyCode::Home => "Home"@,
            PhysKeyCode::End => "End"@,
            PhysKeyCode::PageUp => "PageUp"@,
            PhysKeyCode::PageDown => "PageDown"@,
            PhysKeyCode::UpArrow => "UpArrow"@,
            PhysKeyCode::DownArrow => "DownArrow"@,
            PhysKeyCode::LeftArrow => "LeftArrow"@,
            PhysKeyCode::RightArrow => "RightArrow"@,
            PhysKeyCode::PrintScreen => "PrintScreen"@,
            PhysKeyCode::Pause => "Pause"@,
            PhysKeyCode::Menu => "Menu"@,
            PhysKeyCode::Help => "Help"@,
            PhysKeyCode::Function => "Function"@,
            PhysKeyCode::F1 => "F1"@,
            PhysKeyCode::F2 => "F2"@,
            PhysKeyCode::F3 => "F3"@,
            PhysKeyCode::F4 => "F4"@,
            PhysKeyCode::F5 => "F5"@,
            PhysKeyCode::F6 => "F6"@,
            PhysKeyCode::F7 => "F7"@,
            PhysKeyCode::F8 => "F8"@,
            PhysKeyCode::F9 => "F9"@,
            PhysKeyCode::F10 => "F10"@,
            PhysKeyCode::F11 => "F11"@,
            PhysKeyCode::F12 => "F12"@,
            PhysKeyCode::F13 => "F13"@,
            PhysKeyCode::F14 => "F14"@,
            PhysKeyCode::F15 => "F15"@,
            PhysKeyCode::F16 => "F16"@,
            PhysKeyCode::F17 => "F17"@,
            PhysKeyCode::F18 => "F18"@,
            PhysKeyCode::F19 => "F19"@,
            PhysKeyCode::F20 => "F20"@,
            PhysKeyCode::BackQuote => "BackQuote"@,
            PhysKeyCode::Num1 => "Num1"@,
            PhysKeyCode::Num2 => "Num2"@,
            PhysKeyCode::Num3 => "Num3"@,
            PhysKeyCode::Num4 => "Num4"@,
            PhysKeyCode::Num5 => "Num5"@,
            PhysKeyCode::Num6 => "Num6"@,
            PhysKeyCode::Num7 => "Num7"@,
            PhysKeyCode::Num8 => "Num8"@,
            PhysKeyCode::Num9 => "Num9"@,
            PhysKeyCode::Num0 => "Num0"@,
            PhysKeyCode::Minus => "Minus"@,
            PhysKeyCode::Equal => "Equal"@,
            PhysKeyCode::KeyQ => "KeyQ"@,
            PhysKeyCode::KeyW => "KeyW"@,
            PhysKeyCode::KeyE => "KeyE"@,
            PhysKeyCode::KeyR => "KeyR"@,
            PhysKeyCode::KeyT => "KeyT"@,
            PhysKeyCode::KeyY => "KeyY"@,
            PhysKeyCode::KeyU => "KeyU"@,
            PhysKeyCode::KeyI => "KeyI"@,
            PhysKeyCode::KeyO => "KeyO"@,
            PhysKeyCode::KeyP => "KeyP"@,
            PhysKeyCode::LeftBracket => "LeftBracket"@,
            PhysKeyCode::RightBracket => "RightBracket"@,
            PhysKeyCode::KeyA => "KeyA"@,
            PhysKeyCode::KeyS => "KeyS"@,
            PhysKeyCode::KeyD => "KeyD"@,
            PhysKeyCode::KeyF => "KeyF"@,
            PhysKeyCode::KeyG => "KeyG"@,
            PhysKeyCode::KeyH => "KeyH"@,
            PhysKeyCode::KeyJ => "KeyJ"@,
            PhysKeyCode::KeyK => "KeyK"@,
            PhysKeyCode::KeyL => "KeyL"@,
            PhysKeyCode::SemiColon => "SemiColon"@,
            PhysKeyCode::Quote => "Quote"@,
            PhysKeyCode::BackSlash => "BackSlash"@,
            PhysKeyCode::IntlBackslash => "IntlBackslash"@,
            PhysKeyCode::KeyZ => "KeyZ"@,
            PhysKeyCode::KeyX => "KeyX"@,
            PhysKeyCode::KeyC => "KeyC"@,
            PhysKeyCode::KeyV => "KeyV"@,
            PhysKeyCode::KeyB => "KeyB"@,
            PhysKeyCode::KeyN => "KeyN"@,
            PhysKeyCode::KeyM => "KeyM"@,
            PhysKeyCode::Comma => "Comma"@,
            PhysKeyCode::Dot => "Dot"@,
            PhysKeyCode::Slash => "Slash"@,
            PhysKeyCode::KpReturn => "KpReturn"@,
            PhysKeyCode::KpMinus => "KpMinus"@,
            PhysKeyCode::KpPlus => "KpPlus"@,
            PhysKeyCode::KpMultiply => "KpMultiply"@,
            PhysKeyCode::KpDivide => "KpDivide"@,
            PhysKeyCode::KpDecimal => "KpDecimal"@,
            PhysKeyCode::KpDelete => "KpDelete"@,
            PhysKeyCode::Kp0 => "Kp0"@,
            PhysKeyCode::Kp1 => "Kp1"@,
            PhysKeyCode::Kp2 => "Kp2"@,
            PhysKeyCode::Kp3 => "Kp3"@,
            PhysKeyCode::Kp4 => "Kp4"@,
            PhysKeyCode::Kp5 => "Kp5"@,
            PhysKeyCode::Kp6 => "Kp6"@,
            PhysKeyCode::Kp7 => "Kp7"@,
            PhysKeyCode::Kp8 => "Kp8"@,
            PhysKeyCode::Kp9 => "Kp9"@,
            PhysKeyCode::VolumeDown => "VolumeDown"@,
            PhysKeyCode::VolumeUp => "VolumeUp"@,
            PhysKeyCode::VolumeMute => "VolumeMute"@,
        }
    }

    /// The name of the position, as it is written in logs.
    pub fn name(&self) -> (name: &'static str)
        ensures
            name@ == self.spec_name(),
    {
        match self {
            PhysKeyCode::AltLeft => "AltLeft",
            PhysKeyCode::AltRight => "AltRight",
            PhysKeyCode::ControlLeft => "ControlLeft",
            PhysKeyCode::ControlRight => "ControlRight",
            PhysKeyCode::MetaLeft => "MetaLeft",
            PhysKeyCode::MetaRight => "MetaRight",
            PhysKeyCode::ShiftLeft => "ShiftLeft",
            PhysKeyCode::ShiftRight => "ShiftRight",
            PhysKeyCode::CapsLock => "CapsLock",
            PhysKeyCode::NumLock => "NumLock",
            PhysKeyCode::ScrollLock => "ScrollLock",
            PhysKeyCode::Backspace => "Backspace",
            PhysKeyCode::Delete => "Delete",
            PhysKeyCode::Insert => "Insert",
            PhysKeyCode::Return => "Return",
            PhysKeyCode::Space => "Space",
            PhysKeyCode::Tab => "Tab",
            PhysKeyCode::Escape => "Escape",
            PhysKeyCode::Home => "Home",
            PhysKeyCode::End => "End",
            PhysKeyCode::PageUp => "PageUp",
            PhysKeyCode::PageDown => "PageDown",
            PhysKeyCode::UpArrow => "UpArrow",
            PhysKeyCode::DownArrow => "DownArrow",
            PhysKeyCode::LeftArrow => "LeftArrow",
            PhysKeyCode::RightArrow => "RightArrow",
            PhysKeyCode::PrintScreen => "PrintScreen",
            PhysKeyCode::Pause => "Pause",
            PhysKeyCode::Menu => "Menu",
            PhysKeyCode::Help => "Help",
            PhysKeyCode::Function => "Function",
            PhysKeyCode::F1 => "F1",
            PhysKeyCode::F2 => "F2",
            PhysKeyCode::F3 => "F3",
            PhysKeyCode::F4 => "F4",
            PhysKeyCode::F5 => "F5",
            PhysKeyCode::F6 => "F6",
            PhysKeyCode::F7 => "F7",
            PhysKeyCode::F8 => "F8",
            PhysKeyCode::F9 => "F9",
            PhysKeyCode::F10 => "F10",
            PhysKeyCode::F11 => "F11",
            PhysKeyCode::F12 => "F12",
            PhysKeyCode::F13 => "F13",
            PhysKeyCode::F14 => "F14",
            PhysKeyCode::F15 => "F15",
            PhysKeyCode::F16 => "F16",
            PhysKeyCode::F17 => "F17",
            PhysKeyCode::F18 => "F18",
            PhysKeyCode::F19 => "F19",
            PhysKeyCode::F20 => "F20",
            PhysKeyCode::BackQuote => "BackQuote",
            PhysKeyCode::Num1 => "Num1",
            PhysKeyCode::Num2 => "Num2",
            PhysKeyCode::Num3 => "Num3",
            PhysKeyCode::Num4 => "Num4",
            PhysKeyCode::Num5 => "Num5",
            PhysKeyCode::Num6 => "Num6",
            PhysKeyCode::Num7 => "Num7",
            PhysKeyCode::Num8 => "Num8",
            PhysKeyCode::Num9 => "Num9",
            PhysKeyCode::Num0 => "Num0",
            PhysKeyCode::Minus => "Minus",
            PhysKeyCode::Equal => "Equal",
            PhysKeyCode::KeyQ => "KeyQ",
            PhysKeyCode::KeyW => "KeyW",
            PhysKeyCode::KeyE => "KeyE",
            PhysKeyCode::KeyR => "KeyR",
            PhysKeyCode::KeyT => "KeyT",
            PhysKeyCode::KeyY => "KeyY",
            PhysKeyCode::KeyU => "KeyU",
            PhysKeyCode::KeyI => "KeyI",
            PhysKeyCode::KeyO => "KeyO",
            PhysKeyCode::KeyP => "KeyP",
            PhysKeyCode::LeftBracket => "LeftBracket",
            PhysKeyCode::RightBracket => "RightBracket",
            PhysKeyCode::KeyA => "KeyA",
            PhysKeyCode::KeyS => "KeyS",
            PhysKeyCode::KeyD => "KeyD",
            PhysKeyCode::KeyF => "KeyF",
            PhysKeyCode::KeyG => "KeyG",
            PhysKeyCode::KeyH => "KeyH",
            PhysKeyCode::KeyJ => "KeyJ",
            PhysKeyCode::KeyK => "KeyK",
            PhysKeyCode::KeyL => "KeyL",
            PhysKeyCode::SemiColon => "SemiColon",
            PhysKeyCode::Quote => "Quote",
            PhysKeyCode::BackSlash => "BackSlash",
            PhysKeyCode::IntlBackslash => "IntlBackslash",
            PhysKeyCode::KeyZ => "KeyZ",
            PhysKeyCode::KeyX => "KeyX",
            PhysKeyCode::KeyC => "KeyC",
            PhysKeyCode::KeyV => "KeyV",
            PhysKeyCode::KeyB => "KeyB",
            PhysKeyCode::KeyN => "KeyN",
            PhysKeyCode::KeyM => "KeyM",
            PhysKeyCode::Comma => "Comma",
            PhysKeyCode::Dot => "Dot",
            PhysKeyCode::Slash => "Slash",
            PhysKeyCode::KpReturn => "KpReturn",
            PhysKeyCode::KpMinus => "KpMinus",
            PhysKeyCode::KpPlus => "KpPlus",
            PhysKeyCode::KpMultiply => "KpMultiply",
            PhysKeyCode::KpDivide => "KpDivide",
            PhysKeyCode::KpDecimal => "KpDecimal",
            PhysKeyCode::KpDelete => "KpDelete",
            PhysKeyCode::Kp0 => "Kp0",
            PhysKeyCode::Kp1 => "Kp1",
            PhysKeyCode::Kp2 => "Kp2",
            PhysKeyCode::Kp3 => "Kp3",
            PhysKeyCode::Kp4 => "Kp4",
            PhysKeyCode::Kp5 => "Kp5",
            PhysKeyCode::Kp6 => "Kp6",
            PhysKeyCode::Kp7 => "Kp7",
            PhysKeyCode::Kp8 => "Kp8",
            PhysKeyCode::Kp9 => "Kp9",
            PhysKeyCode::VolumeDown => "VolumeDown",
            PhysKeyCode::VolumeUp => "VolumeUp",
            PhysKeyCode::VolumeMute => "VolumeMute",
        }
    }

    /// The number that stands for this position on the wire.
    pub open spec fn spec_value(self) -> int {
        match self {
            PhysKeyCode::AltLeft => 0,
            PhysKeyCode::AltRight => 1,
            PhysKeyCode::ControlLeft => 2,
            PhysKeyCode::ControlRight => 3,
            PhysKeyCode::MetaLeft => 4,
            PhysKeyCode::MetaRight => 5,
            PhysKeyCode::ShiftLeft => 6,
            PhysKeyCode::ShiftRight => 7,
            PhysKeyCode::CapsLock => 8,
            PhysKeyCode::NumLock => 9,
            PhysKeyCode::ScrollLock => 10,
            PhysKeyCode::Backspace => 11,
            PhysKeyCode::Delete => 12,
            PhysKeyCode::Insert => 13,
            PhysKeyCode::Return => 14,
            PhysKeyCode::Space => 15,
            PhysKeyCode::Tab => 16,
            PhysKeyCode::Escape => 17,
            PhysKeyCode::Home => 18,
            PhysKeyCode::End => 19,
            PhysKeyCode::PageUp => 20,
            PhysKeyCode::PageDown => 21,
            PhysKeyCode::UpArrow => 22,
            PhysKeyCode::DownArrow => 23,
            PhysKeyCode::LeftArrow => 24,
            PhysKeyCode::RightArrow => 25,
            PhysKeyCode::PrintScreen => 26,
            PhysKeyCode::Pause => 27,
            PhysKeyCode::Menu => 28,
            PhysKeyCode::Help => 29,
            PhysKeyCode::Function => 30,
            PhysKeyCode::F1 => 31,
            PhysKeyCode::F2 => 32,
            PhysKeyCode::F3 => 33,
            PhysKeyCode::F4 => 34,
            PhysKeyCode::F5 => 35,
            PhysKeyCode::F6 => 36,
            PhysKeyCode::F7 => 37,
            PhysKeyCode::F8 => 38,
            PhysKeyCode::F9 => 39,
            PhysKeyCode::F10 => 40,
            PhysKeyCode::F11 => 41,
            PhysKeyCode::F12 => 42,
            PhysKeyCode::F13 => 43,
            PhysKeyCode::F14 => 44,
            PhysKeyCode::F15 => 45,
            PhysKeyCode::F16 => 46,
            PhysKeyCode::F17 => 47,
            PhysKeyCode::F18 => 48,
            PhysKeyCode::F19 => 49,
            PhysKeyCode::F20 => 50,
            PhysKeyCode::BackQuote => 51,
            PhysKeyCode::Num1 => 52,
            PhysKeyCode::Num2 => 53,
            PhysKeyCode::Num3 => 54,
            PhysKeyCode::Num4 => 55,
            PhysKeyCode::Num5 => 56,
            PhysKeyCode::Num6 => 57,
            PhysKeyCode::Num7 => 58,
            PhysKeyCode::Num8 => 59,
            PhysKeyCode::Num9 => 60,
            PhysKeyCode::Num0 => 61,
            PhysKeyCode::Minus => 62,
            PhysKeyCode::Equal => 63,
            PhysKeyCode::KeyQ => 64,
            PhysKeyCode::KeyW => 65,
            PhysKeyCode::KeyE => 66,
            PhysKeyCode::KeyR => 67,
            PhysKeyCode::KeyT => 68,
            PhysKeyCode::KeyY => 69,
            PhysKeyCode::KeyU => 70,
            PhysKeyCode::KeyI => 71,
            PhysKeyCode::KeyO => 72,
            PhysKeyCode::KeyP => 73,
            PhysKeyCode::LeftBracket => 74,
            PhysKeyCode::RightBracket => 75,
            PhysKeyCode::KeyA => 76,
            PhysKeyCode::KeyS => 77,
            PhysKeyCode::KeyD => 78,
            PhysKeyCode::KeyF => 79,
            PhysKeyCode::KeyG => 80,
            PhysKeyCode::KeyH => 81,
            PhysKeyCode::KeyJ => 82,
            PhysKeyCode::KeyK => 83,
            PhysKeyCode::KeyL => 84,
            PhysKeyCode::SemiColon => 85,
            PhysKeyCode::Quote => 86,
            PhysKeyCode::BackSlash => 87,
            PhysKeyCode::IntlBackslash => 88,
            PhysKeyCode::KeyZ => 89,
            PhysKeyCode::KeyX => 90,
            PhysKeyCode::KeyC => 91,
            PhysKeyCode::KeyV => 92,
            PhysKeyCode::KeyB => 93,
            PhysKeyCode::KeyN => 94,
            PhysKeyCode::KeyM => 95,
            PhysKeyCode::Comma => 96,
            PhysKeyCode::Dot => 97,
            PhysKeyCode::Slash => 98,
            PhysKeyCode::KpReturn => 99,
            PhysKeyCode::KpMinus => 100,
            PhysKeyCode::KpPlus => 101,
            PhysKeyCode::KpMultiply => 102,
            PhysKeyCode::KpDivide => 103,
            PhysKeyCode::KpDecimal => 104,
            PhysKeyCode::KpDelete => 105,
            PhysKeyCode::Kp0 => 106,
            PhysKeyCode::Kp1 => 107,
            PhysKeyCode::Kp2 => 108,
            PhysKeyCode::Kp3 => 109,
            PhysKeyCode::Kp4 => 110,
            PhysKeyCode::Kp5 => 111,
            PhysKeyCode::Kp6 => 112,
            PhysKeyCode::Kp7 => 113,
            PhysKeyCode::Kp8 => 114,
            PhysKeyCode::Kp9 => 115,
            PhysKeyCode::VolumeDown => 116,
            PhysKeyCode::VolumeUp => 117,
            PhysKeyCode::VolumeMute => 118,
        }
    }

    /// The position that a wire number stands for, if it stands for one.
    pub open spec fn spec_from_i32(value: int) -> Option<PhysKeyCode> {
        if value == 0 {
            Some(PhysKeyCode::AltLeft)
        } else if value == 1 {
            Some(PhysKeyCode::AltRight)
        } else if value == 2 {
            Some(PhysKeyCode::ControlLeft)
        } else if value == 3 {
            Some(PhysKeyCode::ControlRight)
        } else if value == 4 {
            Some(PhysKeyCode::MetaLeft)
        } else if value == 5 {
            Some(PhysKeyCode::MetaRight)
        } else if value == 6 {
            Some(PhysKeyCode::ShiftLeft)
        } else if value == 7 {
            Some(PhysKeyCode::ShiftRight)
        } else if value == 8 {
            Some(PhysKeyCode::CapsLock)
        } else if value == 9 {
            Some(PhysKeyCode::NumLock)
        } else if value == 10 {
            Some(PhysKeyCode::ScrollLock)
        } else if value == 11 {
            Some(PhysKeyCode::Backspace)
        } else if value == 12 {
            Some(PhysKeyCode::Delete)
        } else if value == 13 {
            Some(PhysKeyCode::Insert)
        } else if value == 14 {
            Some(PhysKeyCode::Return)
        } else if value == 15 {
            Some(PhysKeyCode::Space)
        } else if value == 16 {
            Some(PhysKeyCode::Tab)
        } else if value == 17 {
            Some(PhysKeyCode::Escape)
        } else if value == 18 {
            Some(PhysKeyCode::Home)
        } else if value == 19 {
            Some(PhysKeyCode::End)
        } else if value == 20 {
            Some(PhysKeyCode::PageUp)
        } else if value == 21 {
            Some(PhysKeyCode::PageDown)
        } else if value == 22 {
            Some(PhysKeyCode::UpArrow)
        } else if value == 23 {
            Some(PhysKeyCode::DownArrow)
        } else if value == 24 {
            Some(PhysKeyCode::LeftArrow)
        } else if value == 25 {
            Some(PhysKeyCode::RightArrow)
        } else if value == 26 {
            Some(PhysKeyCode::PrintScreen)
        } else if value == 27 {
            Some(PhysKeyCode::Pause)
        } else if value == 28 {
            Some(PhysKeyCode::Menu)
        } else if value == 29 {
            Some(PhysKeyCode::Help)
        } else if value == 30 {
            Some(PhysKeyCode::Function)
        } else if value == 31 {
            Some(PhysKeyCode::F1)
        } else if value == 32 {
            Some(PhysKeyCode::F2)
        } else if value == 33 {
            Some(PhysKeyCode::F3)
        } else if value == 34 {
            Some(PhysKeyCode::F4)
        } else if value == 35 {
            Some(PhysKeyCode::F5)
        } else if value == 36 {
            Some(PhysKeyCode::F6)
        } else if value == 37 {
            Some(PhysKeyCode::F7)
        } else if value == 38 {
            Some(PhysKeyCode::F8)
        } else if value == 39 {
            Some(PhysKeyCode::F9)
        } else if value == 40 {
            Some(PhysKeyCode::F10)
        } else if value == 41 {
            Some(PhysKeyCode::F11)
        } else if value == 42 {
            Some(PhysKeyCode::F12)
        } else if value == 43 {
            Some(PhysKeyCode::F13)
        } else if value == 44 {
            Some(PhysKeyCode::F14)
        } else if value == 45 {
            Some(PhysKeyCode::F15)
        } else if value == 46 {
            Some(PhysKeyCode::F16)
        } else if value == 47 {
            Some(PhysKeyCode::F17)
        } else if value == 48 {
            Some(PhysKeyCode::F18)
        } else if value == 49 {
            Some(PhysKeyCode::F19)
        } else if value == 50 {
            Some(PhysKeyCode::F20)
        } else if value == 51 {
            Some(PhysKeyCode::BackQuote)
        } else if value == 52 {
            Some(PhysKeyCode::Num1)
        } else if value == 53 {
            Some(PhysKeyCode::Num2)
        } else if value == 54 {
            Some(PhysKeyCode::Num3)
        } else if value == 55 {
            Some(PhysKeyCode::Num4)
        } else if value == 56 {
            Some(PhysKeyCode::Num5)
        } else if value == 57 {
            Some(PhysKeyCode::Num6)
        } else if value == 58 {
            Some(PhysKeyCode::Num7)
        } else if value == 59 {
            Some(PhysKeyCode::Num8)
        } else if value == 60 {
            Some(PhysKeyCode::Num9)
        } else if value == 61 {
            Some(PhysKeyCode::Num0)
        } else if value == 62 {
            Some(PhysKeyCode::Minus)
        } else if value == 63 {
            Some(PhysKeyCode::Equal)
        } else if value == 64 {
            Some(PhysKeyCode::KeyQ)
        } else if value == 65 {
            Some(PhysKeyCode::KeyW)
        } else if value == 66 {
            Some(PhysKeyCode::KeyE)
        } else if value == 67 {
            Some(PhysKeyCode::KeyR)
        } else if value == 68 {
            Some(PhysKeyCode::KeyT)
        } else if value == 69 {
            Some(PhysKeyCode::KeyY)
        } else if value == 70 {
            Some(PhysKeyCode::KeyU)
        } else if value == 71 {
            Some(PhysKeyCode::KeyI)
        } else if value == 72 {
            Some(PhysKeyCode::KeyO)
        } else if value == 73 {
            Some(PhysKeyCode::KeyP)
        } else if value == 74 {
            Some(PhysKeyCode::LeftBracket)
        } else if value == 75 {
            Some(PhysKeyCode::RightBracket)
        } else if value == 76 {
            Some(PhysKeyCode::KeyA)
        } else if value == 77 {
            Some(PhysKeyCode::KeyS)
        } else if value == 78 {
            Some(PhysKeyCode::KeyD)
        } else if value == 79 {
            Some(PhysKeyCode::KeyF)
        } else if value == 80 {
            Some(PhysKeyCode::KeyG)
        } else if value == 81 {
            Some(PhysKeyCode::KeyH)
        } else if value == 82 {
            Some(PhysKeyCode::KeyJ)
        } else if value == 83 {
            Some(PhysKeyCode::KeyK)
        } else if value == 84 {
            Some(PhysKeyCode::KeyL)
        } else if value == 85 {
            Some(PhysKeyCode::SemiColon)
        } else if value == 86 {
            Some(PhysKeyCode::Quote)
        } else if value == 87 {
            Some(PhysKeyCode::BackSlash)
        } else if value == 88 {
            Some(PhysKeyCode::IntlBackslash)
        } else if value == 89 {
            Some(PhysKeyCode::KeyZ)
        } else if value == 90 {
            Some(PhysKeyCode::KeyX)
        } else if value == 91 {
            Some(PhysKeyCode::KeyC)
        } else if value == 92 {
            Some(PhysKeyCode::KeyV)
        } else if value == 93 {
            Some(PhysKeyCode::KeyB)
        } else if value == 94 {
            Some(PhysKeyCode::KeyN)
        } else if value == 95 {
            Some(PhysKeyCode::KeyM)
        } else if value == 96 {
            Some(PhysKeyCode::Comma)
        } else if value == 97 {
            Some(PhysKeyCode::Dot)
        } else if value == 98 {
            Some(PhysKeyCode::Slash)
        } else if value == 99 {
            Some(PhysKeyCode::KpReturn)
        } else if value == 100 {
            Some(PhysKeyCode::KpMinus)
        } else if value == 101 {
            Some(PhysKeyCode::KpPlus)
        } else if value == 102 {
            Some(PhysKeyCode::KpMultiply)
        } else if value == 103 {
            Some(PhysKeyCode::KpDivide)
        } else if value == 104 {
            Some(PhysKeyCode::KpDecimal)
        } else if value == 105 {
            Some(PhysKeyCode::KpDelete)
        } else if value == 106 {
            Some(PhysKeyCode::Kp0)
        } else if value == 107 {
            Some(PhysKeyCode::Kp1)
        } else if value == 108 {
            Some(PhysKeyCode::Kp2)
        } else if value == 109 {
            Some(PhysKeyCode::Kp3)
        } else if value == 110 {
            Some(PhysKeyCode::Kp4)
        } else if value == 111 {
            Some(PhysKeyCode::Kp5)
        } else if value == 112 {
            Some(PhysKeyCode::Kp6)
        } else if value == 113 {
            Some(PhysKeyCode::Kp7)
        } else if value == 114 {
            Some(PhysKeyCode::Kp8)
        } else if value == 115 {
            Some(PhysKeyCode::Kp9)
        } else if value == 116 {
            Some(PhysKeyCode::VolumeDown)
        } else if value == 117 {
            Some(PhysKeyCode::VolumeUp)
        } else if value == 118 {
            Some(PhysKeyCode::VolumeMute)
        } else {
            None
        }
    }

    /// The number that stands for this position on the wire.
    pub fn value(self) -> (value: i32)
        ensures
            value == self.spec_value(),
            0 <= value < PHYS_KEY_COUNT,
    {
        match self {
            PhysKeyCode::AltLeft => 0,
            PhysKeyCode::AltRight => 1,
            PhysKeyCode::ControlLeft => 2,
            PhysKeyCode::ControlRight => 3,
            PhysKeyCode::MetaLeft => 4,
            PhysKeyCode::MetaRight => 5,
            PhysKeyCode::ShiftLeft => 6,
            PhysKeyCode::ShiftRight => 7,
            PhysKeyCode::CapsLock => 8,
            PhysKeyCode::NumLock => 9,
            PhysKeyCode::ScrollLock => 10,
            PhysKeyCode::Backspace => 11,
            PhysKeyCode::Delete => 12,
            PhysKeyCode::Insert => 13,
            PhysKeyCode::Return => 14,
            PhysKeyCode::Space => 15,
            PhysKeyCode::Tab => 16,
            PhysKeyCode::Escape => 17,
            PhysKeyCode::Home => 18,
            PhysKeyCode::End => 19,
            PhysKeyCode::PageUp => 20,
            PhysKeyCode::PageDown => 21,
            PhysKeyCode::UpArrow => 22,
            PhysKeyCode::DownArrow => 23,
            PhysKeyCode::LeftArrow => 24,
            PhysKeyCode::RightArrow => 25,
            PhysKeyCode::PrintScreen => 26,
            PhysKeyCode::Pause => 27,
            PhysKeyCode::Menu => 28,
            PhysKeyCode::Help => 29,
            PhysKeyCode::Function => 30,
            PhysKeyCode::F1 => 31,
            PhysKeyCode::F2 => 32,
            PhysKeyCode::F3 => 33,
            PhysKeyCode::F4 => 34,
            PhysKeyCode::F5 => 35,
            PhysKeyCode::F6 => 36,
            PhysKeyCode::F7 => 37,
            PhysKeyCode::F8 => 38,
            PhysKeyCode::F9 => 39,
            PhysKeyCode::F10 => 40,
            PhysKeyCode::F11 => 41,
            PhysKeyCode::F12 => 42,
            PhysKeyCode::F13 => 43,
            PhysKeyCode::F14 => 44,
            PhysKeyCode::F15 => 45,
            PhysKeyCode::F16 => 46,
            PhysKeyCode::F17 => 47,
            PhysKeyCode::F18 => 48,
            PhysKeyCode::F19 => 49,
            PhysKeyCode::F20 => 50,
            PhysKeyCode::BackQuote => 51,
            PhysKeyCode::Num1 => 52,
            PhysKeyCode::Num2 => 53,
            PhysKeyCode::Num3 => 54,
            PhysKeyCode::Num4 => 55,
            PhysKeyCode::Num5 => 56,
            PhysKeyCode::Num6 => 57,
            PhysKeyCode::Num7 => 58,
            PhysKeyCode::Num8 => 59,
            PhysKeyCode::Num9 => 60,
            PhysKeyCode::Num0 => 61,
            PhysKeyCode::Minus => 62,
            PhysKeyCode::Equal => 63,
            PhysKeyCode::KeyQ => 64,
            PhysKeyCode::KeyW => 65,
            PhysKeyCode::KeyE => 66,
            PhysKeyCode::KeyR => 67,
            PhysKeyCode::KeyT => 68,
            PhysKeyCode::KeyY => 69,
            PhysKeyCode::KeyU => 70,
            PhysKeyCode::KeyI => 71,
            PhysKeyCode::KeyO => 72,
            PhysKeyCode::KeyP => 73,
            PhysKeyCode::LeftBracket => 74,
            PhysKeyCode::RightBracket => 75,
            PhysKeyCode::KeyA => 76,
            PhysKeyCode::KeyS => 77,
            PhysKeyCode::KeyD => 78,
            PhysKeyCode::KeyF => 79,
            PhysKeyCode::KeyG => 80,
            PhysKeyCode::KeyH => 81,
            PhysKeyCode::KeyJ => 82,
            PhysKeyCode::KeyK => 83,
            PhysKeyCode::KeyL => 84,
            PhysKeyCode::SemiColon => 85,
            PhysKeyCode::Quote => 86,
            PhysKeyCode::BackSlash => 87,
            PhysKeyCode::IntlBackslash => 88,
            PhysKeyCode::KeyZ => 89,
            PhysKeyCode::KeyX => 90,
            PhysKeyCode::KeyC => 91,
            PhysKeyCode::KeyV => 92,
            PhysKeyCode::KeyB => 93,
            PhysKeyCode::KeyN => 94,
            PhysKeyCode::KeyM => 95,
            PhysKeyCode::Comma => 96,
            PhysKeyCode::Dot => 97,
            PhysKeyCode::Slash => 98,
            PhysKeyCode::KpReturn => 99,
            PhysKeyCode::KpMinus => 100,
            PhysKeyCode::KpPlus => 101,
            PhysKeyCode::KpMultiply => 102,
            PhysKeyCode::KpDivide => 103,
            PhysKeyCode::KpDecimal => 104,
            PhysKeyCode::KpDelete => 105,
            PhysKeyCode::Kp0 => 106,
            PhysKeyCode::Kp1 => 107,
            PhysKeyCode::Kp2 => 108,
            PhysKeyCode::Kp3 => 109,
            PhysKeyCode::Kp4 => 110,
            PhysKeyCode::Kp5 => 111,
            PhysKeyCode::Kp6 => 112,
            PhysKeyCode::Kp7 => 113,
            PhysKeyCode::Kp8 => 114,
            PhysKeyCode::Kp9 => 115,
            PhysKeyCode::VolumeDown => 116,
            PhysKeyCode::VolumeUp => 117,
            PhysKeyCode::VolumeMute => 118,
        }
    }

    /// Reads a position from its wire number. Numbers that stand for no
    /// position give `None`.
    pub fn from_i32(value: i32) -> (phys: Option<PhysKeyCode>)
        ensures
            phys == PhysKeyCode::spec_from_i32(value as int),
            phys is Some <==> 0 <= value < PHYS_KEY_COUNT,
    {
        match value {
            0 => Some(PhysKeyCode::AltLeft),
            1 => Some(PhysKeyCode::AltRight),
            2 => Some(PhysKeyCode::ControlLeft),
            3 => Some(PhysKeyCode::ControlRight),
            4 => Some(PhysKeyCode::MetaLeft),
            5 => Some(PhysKeyCode::MetaRight),
            6 => Some(PhysKeyCode::ShiftLeft),
            7 => Some(PhysKeyCode::ShiftRight),
            8 => Some(PhysKeyCode::CapsLock),
            9 => Some(PhysKeyCode::NumLock),
            10 => Some(PhysKeyCode::ScrollLock),
            11 => Some(PhysKeyCode::Backspace),
            12 => Some(PhysKeyCode::Delete),
            13 => Some(PhysKeyCode::Insert),
            14 => Some(PhysKeyCode::Return),
            15 => Some(PhysKeyCode::Space),
            16 => Some(PhysKeyCode::Tab),
            17 => Some(PhysKeyCode::Escape),
            18 => Some(PhysKeyCode::Home),
            19 => Some(PhysKeyCode::End),
            20 => Some(PhysKeyCode::PageUp),
            21 => Some(PhysKeyCode::PageDown),
            22 => Some(PhysKeyCode::UpArrow),
            23 => Some(PhysKeyCode::DownArrow),
            24 => Some(PhysKeyCode::LeftArrow),
            25 => Some(PhysKeyCode::RightArrow),
            26 => Some(PhysKeyCode::PrintScreen),
            27 => Some(PhysKeyCode::Pause),
            28 => Some(PhysKeyCode::Menu),
            29 => Some(PhysKeyCode::Help),
            30 => Some(PhysKeyCode::Function),
            31 => Some(PhysKeyCode::F1),
            32 => Some(PhysKeyCode::F2),
            33 => Some(PhysKeyCode::F3),
            34 => Some(PhysKeyCode::F4),
            35 => Some(PhysKeyCode::F5),
            36 => Some(PhysKeyCode::F6),
            37 => Some(PhysKeyCode::F7),
            38 => Some(PhysKeyCode::F8),
            39 => Some(PhysKeyCode::F9),
            40 => Some(PhysKeyCode::F10),
            41 => Some(PhysKeyCode::F11),
            42 => Some(PhysKeyCode::F12),
            43 => Some(PhysKeyCode::F13),
            44 => Some(PhysKeyCode::F14),
            45 => Some(PhysKeyCode::F15),
            46 => Some(PhysKeyCode::F16),
            47 => Some(PhysKeyCode::F17),
            48 => Some(PhysKeyCode::F18),
            49 => Some(PhysKeyCode::F19),
            50 => Some(PhysKeyCode::F20),
            51 => Some(PhysKeyCode::BackQuote),
            52 => Some(PhysKeyCode::Num1),
            53 => Some(PhysKeyCode::Num2),
            54 => Some(PhysKeyCode::Num3),
            55 => Some(PhysKeyCode::Num4),
            56 => Some(PhysKeyCode::Num5),
            57 => Some(PhysKeyCode::Num6),
            58 => Some(PhysKeyCode::Num7),
            59 => Some(PhysKeyCode::Num8),
            60 => Some(PhysKeyCode::Num9),
            61 => Some(PhysKeyCode::Num0),
            62 => Some(PhysKeyCode::Minus),
            63 => Some(PhysKeyCode::Equal),
            64 => Some(PhysKeyCode::KeyQ),
            65 => Some(PhysKeyCode::KeyW),
            66 => Some(PhysKeyCode::KeyE),
            67 => Some(PhysKeyCode::KeyR),
            68 => Some(PhysKeyCode::KeyT),
            69 => Some(PhysKeyCode::KeyY),
            70 => Some(PhysKeyCode::KeyU),
            71 => Some(PhysKeyCode::KeyI),
            72 => Some(PhysKeyCode::KeyO),
            73 => Some(PhysKeyCode::KeyP),
            74 => Some(PhysKeyCode::LeftBracket),
            75 => Some(PhysKeyCode::RightBracket),
            76 => Some(PhysKeyCode::KeyA),
            77 => Some(PhysKeyCode::KeyS),
            78 => Some(PhysKeyCode::KeyD),
            79 => Some(PhysKeyCode::KeyF),
            80 => Some(PhysKeyCode::KeyG),
            81 => Some(PhysKeyCode::KeyH),
            82 => Some(PhysKeyCode::KeyJ),
            83 => Some(PhysKeyCode::KeyK),
            84 => Some(PhysKeyCode::KeyL),
            85 => Some(PhysKeyCode::SemiColon),
            86 => Some(PhysKeyCode::Quote),
            87 => Some(PhysKeyCode::BackSlash),
            88 => Some(PhysKeyCode::IntlBackslash),
            89 => Some(PhysKeyCode::KeyZ),
            90 => Some(PhysKeyCode::KeyX),
            91 => Some(PhysKeyCode::KeyC),
            92 => Some(PhysKeyCode::KeyV),
            93 => Some(PhysKeyCode::KeyB),
            94 => Some(PhysKeyCode::KeyN),
            95 => Some(PhysKeyCode::KeyM),
            96 => Some(PhysKeyCode::Comma),
            97 => Some(PhysKeyCode::Dot),
            98 => Some(PhysKeyCode::Slash),
            99 => Some(PhysKeyCode::KpReturn),
            100 => Some(PhysKeyCode::KpMinus),
            101 => Some(PhysKeyCode::KpPlus),
            102 => Some(PhysKeyCode::KpMultiply),
            103 => Some(PhysKeyCode::KpDivide),
            104 => Some(PhysKeyCode::KpDecimal),
            105 => Some(PhysKeyCode::KpDelete),
            106 => Some(PhysKeyCode::Kp0),
            107 => Some(PhysKeyCode::Kp1),
            108 => Some(PhysKeyCode::Kp2),
            109 => Some(PhysKeyCode::Kp3),
            110 => Some(PhysKeyCode::Kp4),
            111 => Some(PhysKeyCode::Kp5),
            112 => Some(PhysKeyCode::Kp6),
            113 => Some(PhysKeyCode::Kp7),
            114 => Some(PhysKeyCode::Kp8),
            115 => Some(PhysKeyCode::Kp9),
            116 => Some(PhysKeyCode::VolumeDown),
            117 => Some(PhysKeyCode::VolumeUp),
            118 => Some(PhysKeyCode::VolumeMute),
            _ => None,
        }
    }

    /// Wire numbers and positions correspond one to one: a position is read
    /// back from its own number, and a number that gives a position is that
    /// position's number.
    pub proof fn lemma_wire_value_round_trip(phys: PhysKeyCode, value: int)
        ensures
            PhysKeyCode::spec_from_i32(phys.spec_value()) == Some(phys),
            PhysKeyCode::spec_from_i32(value) == Some(phys) ==> phys.spec_value() == value,
            PhysKeyCode::spec_from_i32(value) is Some <==> 0 <= value < PHYS_KEY_COUNT,
    {
    }
}

} // verus!
