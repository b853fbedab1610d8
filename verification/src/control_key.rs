use vstd::prelude::*;

verus! {

/// A logical key that both ends of a session know by name, whatever keyboard
/// layout either of them uses.
///
/// Each key has a fixed number on the wire, given by [`ControlKey::value`].
#[derive(Clone, Copy, Debug, PartialEq, Eq, Hash, Structural)]
pub enum ControlKey {
    /// Placeholder for a key that has no logical name.
    Unknown,
    Alt,
    Backspace,
    CapsLock,
    Control,
    Delete,
    DownArrow,
    End,
    Escape,
    F1,
    F10,
    F11,
    F12,
    F2,
    F3,
    F4,
    F5,
    F6,
    F7,
    F8,
    F9,
    Home,
    LeftArrow,
    /// The meta key, also known as windows, super or command.
    Meta,
    /// Older name of `Alt`, kept for peers that still send it.
    Option,
    PageDown,
    PageUp,
    Return,
    RightArrow,
    Shift,
    Space,
    Tab,
    UpArrow,
    Numpad0,
    Numpad1,
    Numpad2,
    Numpad3,
    Numpad4,
    Numpad5,
    Numpad6,
    Numpad7,
    Numpad8,
    Numpad9,
    Cancel,
    Clear,
    /// Older name of `Alt`, kept for peers that still send it.
    Menu,
    Pause,
    Kana,
    Hangul,
    Junja,
    Final,
    Hanja,
    Kanji,
    Convert,
    Select,
    Print,
    Execute,
    /// The print-screen key.
    Snapshot,
    Insert,
    Help,
    Sleep,
    Separator,
    /// The scroll-lock key.
    Scroll,
    NumLock,
    /// The right-hand meta key.
    RWin,
    /// The context-menu key.
    Apps,
    Multiply,
    Add,
    Subtract,
    Decimal,
    Divide,
    Equals,
    NumpadEnter,
    RShift,
    RControl,
    RAlt,
    /// The secure-attention sequence, sent as one key.
    CtrlAltDel,
    /// Request to lock the session, sent as one key.
    LockScreen,
}

impl ControlKey {
    /// The name of the key.
    pub open spec fn spec_name(&self) -> Seq<char> {
        match self {
            ControlKey::Unknown => "Unknown"@,
            ControlKey::Alt => "Alt"@,
            ControlKey::Backspace => "Backspace"@,
            ControlKey::CapsLock => "CapsLock"@,
            ControlKey::Control => "Control"@,
            ControlKey::Delete => "Delete"@,
            ControlKey::DownArrow => "DownArrow"@,
            ControlKey::End => "End"@,
            ControlKey::Escape => "Escape"@,
            ControlKey::F1 => "F1"@,
            ControlKey::F10 => "F10"@,
            ControlKey::F11 => "F11"@,
            ControlKey::F12 => "F12"@,
            ControlKey::F2 => "F2"@,
            ControlKey::F3 => "F3"@,
            ControlKey::F4 => "F4"@,
            ControlKey::F5 => "F5"@,
            ControlKey::F6 => "F6"@,
            ControlKey::F7 => "F7"@,
            ControlKey::F8 => "F8"@,
            ControlKey::F9 => "F9"@,
            ControlKey::Home => "Home"@,
            ControlKey::LeftArrow => "LeftArrow"@,
            ControlKey::Meta => "Meta"@,
            ControlKey::Option => "Option"@,
            ControlKey::PageDown => "PageDown"@,
            ControlKey::PageUp => "PageUp"@,
            ControlKey::Return => "Return"@,
            ControlKey::RightArrow => "RightArrow"@,
            ControlKey::Shift => "Shift"@,
            ControlKey::Space => "Space"@,
            ControlKey::Tab => "Tab"@,
            ControlKey::UpArrow => "UpArrow"@,
            ControlKey::Numpad0 => "Numpad0"@,
            ControlKey::Numpad1 => "Numpad1"@,
            ControlKey::Numpad2 => "Numpad2"@,
            ControlKey::Numpad3 => "Numpad3"@,
            ControlKey::Numpad4 => "Numpad4"@,
            ControlKey::Numpad5 => "Numpad5"@,
            ControlKey::Numpad6 => "Numpad6"@,
            ControlKey::Numpad7 => "Numpad7"@,
            ControlKey::Numpad8 => "Numpad8"@,
            ControlKey::Numpad9 => "Numpad9"@,
            ControlKey::Cancel => "Cancel"@,
            ControlKey::Clear => "Clear"@,
            ControlKey::Menu => "Menu"@,
            ControlKey::Pause => "Pause"@,
            ControlKey::Kana => "Kana"@,
            ControlKey::Hangul => "Hangul"@,
            ControlKey::Junja => "Junja"@,
            ControlKey::Final => "Final"@,
            ControlKey::Hanja => "Hanja"@,
            ControlKey::Kanji => "Kanji"@,
            ControlKey::Convert => "Convert"@,
            ControlKey::Select => "Select"@,
            ControlKey::Print => "Print"@,
            ControlKey::Execute => "Execute"@,
            ControlKey::Snapshot => "Snapshot"@,
            ControlKey::Insert => "Insert"@,
            ControlKey::Help => "Help"@,
            ControlKey::Sleep => "Sleep"@,
            ControlKey::Separator => "Separator"@,
            ControlKey::Scroll => "Scroll"@,
            ControlKey::NumLock => "NumLock"@,
            ControlKey::RWin => "RWin"@,
            ControlKey::Apps => "Apps"@,
            ControlKey::Multiply => "Multiply"@,
            ControlKey::Add => "Add"@,
            ControlKey::Subtract => "Subtract"@,
            ControlKey::Decimal => "Decimal"@,
            ControlKey::Divide => "Divide"@,
            ControlKey::Equals => "Equals"@,
            ControlKey::NumpadEnter => "NumpadEnter"@,
            ControlKey::RShift => "RShift"@,
            ControlKey::RControl => "RControl"@,
            ControlKey::RAlt => "RAlt"@,
            ControlKey::CtrlAltDel => "CtrlAltDel"@,
            ControlKey::LockScreen => "LockScreen"@,
        }
    }

    /// The name of the key, as it is written in logs.
    pub fn name(&self) -> (name: &'static str)
        ensures
            name@ == self.spec_name(),
    {
        match self {
            ControlKey::Unknown => "Unknown",
            ControlKey::Alt => "Alt",
            ControlKey::Backspace => "Backspace",
            ControlKey::CapsLock => "CapsLock",
            ControlKey::Control => "Control",
            ControlKey::Delete => "Delete",
            ControlKey::DownArrow => "DownArrow",
            ControlKey::End => "End",
            ControlKey::Escape => "Escape",
            ControlKey::F1 => "F1",
            ControlKey::F10 => "F10",
            ControlKey::F11 => "F11",
            ControlKey::F12 => "F12",
            ControlKey::F2 => "F2",
            ControlKey::F3 => "F3",
            ControlKey::F4 => "F4",
            ControlKey::F5 => "F5",
            ControlKey::F6 => "F6",
            ControlKey::F7 => "F7",
            ControlKey::F8 => "F8",
            ControlKey::F9 => "F9",
            ControlKey::Home => "Home",
            ControlKey::LeftArrow => "LeftArrow",
            ControlKey::Meta => "Meta",
            ControlKey::Option => "Option",
            ControlKey::PageDown => "PageDown",
            ControlKey::PageUp => "PageUp",
            ControlKey::Return => "Return",
            ControlKey::RightArrow => "RightArrow",
            ControlKey::Shift => "Shift",
            ControlKey::Space => "Space",
            ControlKey::Tab => "Tab",
            ControlKey::UpArrow => "UpArrow",
            ControlKey::Numpad0 => "Numpad0",
            ControlKey::Numpad1 => "Numpad1",
            ControlKey::Numpad2 => "Numpad2",
            ControlKey::Numpad3 => "Numpad3",
            ControlKey::Numpad4 => "Numpad4",
            ControlKey::Numpad5 => "Numpad5",
            ControlKey::Numpad6 => "Numpad6",
            ControlKey::Numpad7 => "Numpad7",
            ControlKey::Numpad8 => "Numpad8",
            ControlKey::Numpad9 => "Numpad9",
            ControlKey::Cancel => "Cancel",
            ControlKey::Clear => "Clear",
            ControlKey::Menu => "Menu",
            ControlKey::Pause => "Pause",
            ControlKey::Kana => "Kana",
            ControlKey::Hangul => "Hangul",
            ControlKey::Junja => "Junja",
            ControlKey::Final => "Final",
            ControlKey::Hanja => "Hanja",
            ControlKey::Kanji => "Kanji",
            ControlKey::Convert => "Convert",
            ControlKey::Select => "Select",
            ControlKey::Print => "Print",
            ControlKey::Execute => "Execute",
            ControlKey::Snapshot => "Snapshot",
            ControlKey::Insert => "Insert",
            ControlKey::Help => "Help",
            ControlKey::Sleep => "Sleep",
            ControlKey::Separator => "Separator",
            ControlKey::Scroll => "Scroll",
            ControlKey::NumLock => "NumLock",
            ControlKey::RWin => "RWin",
            ControlKey::Apps => "Apps",
            ControlKey::Multiply => "Multiply",
            ControlKey::Add => "Add",
            ControlKey::Subtract => "Subtract",
            ControlKey::Decimal => "Decimal",
            ControlKey::Divide => "Divide",
            ControlKey::Equals => "Equals",
            ControlKey::NumpadEnter => "NumpadEnter",
            ControlKey::RShift => "RShift",
            ControlKey::RControl => "RControl",
            ControlKey::RAlt => "RAlt",
            ControlKey::CtrlAltDel => "CtrlAltDel",
            ControlKey::LockScreen => "LockScreen",
        }
    }

    /// The number that stands for this key on the wire.
    pub open spec fn spec_value(self) -> int {
        match self {
            ControlKey::Unknown => 0,
            ControlKey::Alt => 1,
            ControlKey::Backspace => 2,
            ControlKey::CapsLock => 3,
            ControlKey::Control => 4,
            ControlKey::Delete => 5,
            ControlKey::DownArrow => 6,
            ControlKey::End => 7,
            ControlKey::Escape => 8,
            ControlKey::F1 => 9,
            ControlKey::F10 => 10,
            ControlKey::F11 => 11,
            ControlKey::F12 => 12,
            ControlKey::F2 => 13,
            ControlKey::F3 => 14,
            ControlKey::F4 => 15,
            ControlKey::F5 => 16,
            ControlKey::F6 => 17,
            ControlKey::F7 => 18,
            ControlKey::F8 => 19,
            ControlKey::F9 => 20,
            ControlKey::Home => 21,
            ControlKey::LeftArrow => 22,
            ControlKey::Meta => 23,
            ControlKey::Option => 24,
            ControlKey::PageDown => 25,
            ControlKey::PageUp => 26,
            ControlKey::Return => 27,
            ControlKey::RightArrow => 28,
            ControlKey::Shift => 29,
            ControlKey::Space => 30,
            ControlKey::Tab => 31,
            ControlKey::UpArrow => 32,
            ControlKey::Numpad0 => 33,
            ControlKey::Numpad1 => 34,
            ControlKey::Numpad2 => 35,
            ControlKey::Numpad3 => 36,
            ControlKey::Numpad4 => 37,
            ControlKey::Numpad5 => 38,
            ControlKey::Numpad6 => 39,
            ControlKey::Numpad7 => 40,
            ControlKey::Numpad8 => 41,
            ControlKey::Numpad9 => 42,
            ControlKey::Cancel => 43,
            ControlKey::Clear => 44,
            ControlKey::Menu => 45,
            ControlKey::Pause => 46,
            ControlKey::Kana => 47,
            ControlKey::Hangul => 48,
            ControlKey::Junja => 49,
            ControlKey::Final => 50,
            ControlKey::Hanja => 51,
            ControlKey::Kanji => 52,
            ControlKey::Convert => 53,
            ControlKey::Select => 54,
            ControlKey::Print => 55,
            ControlKey::Execute => 56,
            ControlKey::Snapshot => 57,
            ControlKey::Insert => 58,
            ControlKey::Help => 59,
            ControlKey::Sleep => 60,
            ControlKey::Separator => 61,
            ControlKey::Scroll => 62,
            ControlKey::NumLock => 63,
            ControlKey::RWin => 64,
            ControlKey::Apps => 65,
            ControlKey::Multiply => 66,
            ControlKey::Add => 67,
            ControlKey::Subtract => 68,
            ControlKey::Decimal => 69,
            ControlKey::Divide => 70,
            ControlKey::Equals => 71,
            ControlKey::NumpadEnter => 72,
            ControlKey::RShift => 73,
            ControlKey::RControl => 74,
            ControlKey::RAlt => 75,
            ControlKey::CtrlAltDel => 100,
            ControlKey::LockScreen => 101,
        }
    }

    /// The key that a wire number stands for, if it stands for one.
    pub open spec fn spec_from_i32(value: int) -> Option<ControlKey> {
        if value == 0 {
            Some(ControlKey::Unknown)
        } else if value == 1 {
            Some(ControlKey::Alt)
        } else if value == 2 {
            Some(ControlKey::Backspace)
        } else if value == 3 {
            Some(ControlKey::CapsLock)
        } else if value == 4 {
            Some(ControlKey::Control)
        } else if value == 5 {
            Some(ControlKey::Delete)
        } else if value == 6 {
            Some(ControlKey::DownArrow)
        } else if value == 7 {
            Some(ControlKey::End)
        } else if value == 8 {
            Some(ControlKey::Escape)
        } else if value == 9 {
            Some(ControlKey::F1)
        } else if value == 10 {
            Some(ControlKey::F10)
        } else if value == 11 {
            Some(ControlKey::F11)
        } else if value == 12 {
            Some(ControlKey::F12)
        } else if value == 13 {
            Some(ControlKey::F2)
        } else if value == 14 {
            Some(ControlKey::F3)
        } else if value == 15 {
            Some(ControlKey::F4)
        } else if value == 16 {
            Some(ControlKey::F5)
        } else if value == 17 {
            Some(ControlKey::F6)
        } else if value == 18 {
            Some(ControlKey::F7)
        } else if value == 19 {
            Some(ControlKey::F8)
        } else if value == 20 {
            Some(ControlKey::F9)
        } else if value == 21 {
            Some(ControlKey::Home)
        } else if value == 22 {
            Some(ControlKey::LeftArrow)
        } else if value == 23 {
            Some(ControlKey::Meta)
        } else if value == 24 {
            Some(ControlKey::Option)
        } else if value == 25 {
            Some(ControlKey::PageDown)
        } else if value == 26 {
            Some(ControlKey::PageUp)
        } else if value == 27 {
            Some(ControlKey::Return)
        } else if value == 28 {
            Some(ControlKey::RightArrow)
        } else if value == 29 {
            Some(ControlKey::Shift)
        } else if value == 30 {
            Some(ControlKey::Space)
        } else if value == 31 {
            Some(ControlKey::Tab)
        } else if value == 32 {
            Some(ControlKey::UpArrow)
        } else if value == 33 {
            Some(ControlKey::Numpad0)
        } else if value == 34 {
            Some(ControlKey::Numpad1)
        } else if value == 35 {
            Some(ControlKey::Numpad2)
        } else if value == 36 {
            Some(ControlKey::Numpad3)
        } else if value == 37 {
            Some(ControlKey::Numpad4)
        } else if value == 38 {
            Some(ControlKey::Numpad5)
        } else if value == 39 {
            Some(ControlKey::Numpad6)
        } else if value == 40 {
            Some(ControlKey::Numpad7)
        } else if value == 41 {
            Some(ControlKey::Numpad8)
        } else if value == 42 {
            Some(ControlKey::Numpad9)
        } else if value == 43 {
            Some(ControlKey::Cancel)
        } else if value == 44 {
            Some(ControlKey::Clear)
        } else if value == 45 {
            Some(ControlKey::Menu)
        } else if value == 46 {
            Some(ControlKey::Pause)
        } else if value == 47 {
            Some(ControlKey::Kana)
        } else if value == 48 {
            Some(ControlKey::Hangul)
        } else if value == 49 {
            Some(ControlKey::Junja)
        } else if value == 50 {
            Some(ControlKey::Final)
        } else if value == 51 {
            Some(ControlKey::Hanja)
        } else if value == 52 {
            Some(ControlKey::Kanji)
        } else if value == 53 {
            Some(ControlKey::Convert)
        } else if value == 54 {
            Some(ControlKey::Select)
        } else if value == 55 {
            Some(ControlKey::Print)
        } else if value == 56 {
            Some(ControlKey::Execute)
        } else if value == 57 {
            Some(ControlKey::Snapshot)
        } else if value == 58 {
            Some(ControlKey::Insert)
        } else if value == 59 {
            Some(ControlKey::Help)
        } else if value == 60 {
            Some(ControlKey::Sleep)
        } else if value == 61 {
            Some(ControlKey::Separator)
        } else if value == 62 {
            Some(ControlKey::Scroll)
        } else if value == 63 {
            Some(ControlKey::NumLock)
        } else if value == 64 {
            Some(ControlKey::RWin)
        } else if value == 65 {
            Some(ControlKey::Apps)
        } else if value == 66 {
            Some(ControlKey::Multiply)
        } else if value == 67 {
            Some(ControlKey::Add)
        } else if value == 68 {
            Some(ControlKey::Subtract)
        } else if value == 69 {
            Some(ControlKey::Decimal)
        } else if value == 70 {
            Some(ControlKey::Divide)
        } else if value == 71 {
            Some(ControlKey::Equals)
        } else if value == 72 {
            Some(ControlKey::NumpadEnter)
        } else if value == 73 {
            Some(ControlKey::RShift)
        } else if value == 74 {
            Some(ControlKey::RControl)
        } else if value == 75 {
            Some(ControlKey::RAlt)
        } else if value == 100 {
            Some(ControlKey::CtrlAltDel)
        } else if value == 101 {
            Some(ControlKey::LockScreen)
        } else {
            None
        }
    }

    /// Whether this key is one of the eight modifier keys.
    pub open spec fn spec_is_modifier(self) -> bool {
        self is Control || self is Meta || self is Alt || self is Shift || self is RControl
            || self is RWin || self is RAlt || self is RShift
    }

    /// The key with control and meta exchanged, on either side of the keyboard.
    pub open spec fn spec_swap_modifier(self) -> ControlKey {
        match self {
            ControlKey::Control => ControlKey::Meta,
            ControlKey::Meta => ControlKey::Control,
            ControlKey::RControl => ControlKey::RWin,
            ControlKey::RWin => ControlKey::RControl,
            _ => self,
        }
    }

    /// Exchanges control and meta: `Control` with `Meta`, `RControl` with `RWin`.
    /// Every other key is returned as it is.
    #[verifier::when_used_as_spec(spec_swap_modifier)]
    pub fn swap_modifier(self) -> (swapped: ControlKey)
        ensures
            swapped == self.spec_swap_modifier(),
    {
        match self {
            ControlKey::Control => ControlKey::Meta,
            ControlKey::Meta => ControlKey::Control,
            ControlKey::RControl => ControlKey::RWin,
            ControlKey::RWin => ControlKey::RControl,
            _ => self,
        }
    }

    /// Tells whether this key is a modifier: control, meta, alt or shift, on
    /// either side of the keyboard.
    #[verifier::when_used_as_spec(spec_is_modifier)]
    pub fn is_modifier(self) -> (modifier: bool)
        ensures
            modifier == self.spec_is_modifier(),
    {
        match self {
            ControlKey::Control
            | ControlKey::Meta
            | ControlKey::Alt
            | ControlKey::Shift
            | ControlKey::RControl
            | ControlKey::RWin
            | ControlKey::RAlt
            | ControlKey::RShift => true,
            _ => false,
        }
    }

    /// The number that stands for this key on the wire.
    pub fn value(self) -> (value: i32)
        ensures
            value == self.spec_value(),
    {
        match self {
            ControlKey::Unknown => 0,
            ControlKey::Alt => 1,
            ControlKey::Backspace => 2,
            ControlKey::CapsLock => 3,
            ControlKey::Control => 4,
            ControlKey::Delete => 5,
            ControlKey::DownArrow => 6,
            ControlKey::End => 7,
            ControlKey::Escape => 8,
            ControlKey::F1 => 9,
            ControlKey::F10 => 10,
            ControlKey::F11 => 11,
            ControlKey::F12 => 12,
            ControlKey::F2 => 13,
            ControlKey::F3 => 14,
            ControlKey::F4 => 15,
            ControlKey::F5 => 16,
            ControlKey::F6 => 17,
            ControlKey::F7 => 18,
            ControlKey::F8 => 19,
            ControlKey::F9 => 20,
            ControlKey::Home => 21,
            ControlKey::LeftArrow => 22,
            ControlKey::Meta => 23,
            ControlKey::Option => 24,
            ControlKey::PageDown => 25,
            ControlKey::PageUp => 26,
            ControlKey::Return => 27,
            ControlKey::RightArrow => 28,
            ControlKey::Shift => 29,
            ControlKey::Space => 30,
            ControlKey::Tab => 31,
            ControlKey::UpArrow => 32,
            ControlKey::Numpad0 => 33,
            ControlKey::Numpad1 => 34,
            ControlKey::Numpad2 => 35,
            ControlKey::Numpad3 => 36,
            ControlKey::Numpad4 => 37,
            ControlKey::Numpad5 => 38,
            ControlKey::Numpad6 => 39,
            ControlKey::Numpad7 => 40,
            ControlKey::Numpad8 => 41,
            ControlKey::Numpad9 => 42,
            ControlKey::Cancel => 43,
            ControlKey::Clear => 44,
            ControlKey::Menu => 45,
            ControlKey::Pause => 46,
            ControlKey::Kana => 47,
            ControlKey::Hangul => 48,
            ControlKey::Junja => 49,
            ControlKey::Final => 50,
            ControlKey::Hanja => 51,
            ControlKey::Kanji => 52,
            ControlKey::Convert => 53,
            ControlKey::Select => 54,
            ControlKey::Print => 55,
            ControlKey::Execute => 56,
            ControlKey::Snapshot => 57,
            ControlKey::Insert => 58,
            ControlKey::Help => 59,
            ControlKey::Sleep => 60,
            ControlKey::Separator => 61,
            ControlKey::Scroll => 62,
            ControlKey::NumLock => 63,
            ControlKey::RWin => 64,
            ControlKey::Apps => 65,
            ControlKey::Multiply => 66,
            ControlKey::Add => 67,
            ControlKey::Subtract => 68,
            ControlKey::Decimal => 69,
            ControlKey::Divide => 70,
            ControlKey::Equals => 71,
            ControlKey::NumpadEnter => 72,
            ControlKey::RShift => 73,
            ControlKey::RControl => 74,
            ControlKey::RAlt => 75,
            ControlKey::CtrlAltDel => 100,
            ControlKey::LockScreen => 101,
        }
    }

    /// Reads a key from its wire number. Numbers that stand for no key give
    /// `None`.
    pub fn from_i32(value: i32) -> (key: Option<ControlKey>)
        ensures
            key == ControlKey::spec_from_i32(value as int),
    {
        match value {
            0 => Some(ControlKey::Unknown),
            1 => Some(ControlKey::Alt),
            2 => Some(ControlKey::Backspace),
            3 => Some(ControlKey::CapsLock),
            4 => Some(ControlKey::Control),
            5 => Some(ControlKey::Delete),
            6 => Some(ControlKey::DownArrow),
            7 => Some(ControlKey::End),
            8 => Some(ControlKey::Escape),
            9 => Some(ControlKey::F1),
            10 => Some(ControlKey::F10),
            11 => Some(ControlKey::F11),
            12 => Some(ControlKey::F12),
            13 => Some(ControlKey::F2),
            14 => Some(ControlKey::F3),
            15 => Some(ControlKey::F4),
            16 => Some(ControlKey::F5),
            17 => Some(ControlKey::F6),
            18 => Some(ControlKey::F7),
            19 => Some(ControlKey::F8),
            20 => Some(ControlKey::F9),
            21 => Some(ControlKey::Home),
            22 => Some(ControlKey::LeftArrow),
            23 => Some(ControlKey::Meta),
            24 => Some(ControlKey::Option),
            25 => Some(ControlKey::PageDown),
            26 => Some(ControlKey::PageUp),
            27 => Some(ControlKey::Return),
            28 => Some(ControlKey::RightArrow),
            29 => Some(ControlKey::Shift),
            30 => Some(ControlKey::Space),
            31 => Some(ControlKey::Tab),
            32 => Some(ControlKey::UpArrow),
            33 => Some(ControlKey::Numpad0),
            34 => Some(ControlKey::Numpad1),
            35 => Some(ControlKey::Numpad2),
            36 => Some(ControlKey::Numpad3),
            37 => Some(ControlKey::Numpad4),
            38 => Some(ControlKey::Numpad5),
            39 => Some(ControlKey::Numpad6),
            40 => Some(ControlKey::Numpad7),
            41 => Some(ControlKey::Numpad8),
            42 => Some(ControlKey::Numpad9),
            43 => Some(ControlKey::Cancel),
            44 => Some(ControlKey::Clear),
            45 => Some(ControlKey::Menu),
            46 => Some(ControlKey::Pause),
            47 => Some(ControlKey::Kana),
            48 => Some(ControlKey::Hangul),
            49 => Some(ControlKey::Junja),
            50 => Some(ControlKey::Final),
            51 => Some(ControlKey::Hanja),
            52 => Some(ControlKey::Kanji),
            53 => Some(ControlKey::Convert),
            54 => Some(ControlKey::Select),
            55 => Some(ControlKey::Print),
            56 => Some(ControlKey::Execute),
            57 => Some(ControlKey::Snapshot),
            58 => Some(ControlKey::Insert),
            59 => Some(ControlKey::Help),
            60 => Some(ControlKey::Sleep),
            61 => Some(ControlKey::Separator),
            62 => Some(ControlKey::Scroll),
            63 => Some(ControlKey::NumLock),
            64 => Some(ControlKey::RWin),
            65 => Some(ControlKey::Apps),
            66 => Some(ControlKey::Multiply),
            67 => Some(ControlKey::Add),
            68 => Some(ControlKey::Subtract),
            69 => Some(ControlKey::Decimal),
            70 => Some(ControlKey::Divide),
            71 => Some(ControlKey::Equals),
            72 => Some(ControlKey::NumpadEnter),
            73 => Some(ControlKey::RShift),
            74 => Some(ControlKey::RControl),
            75 => Some(ControlKey::RAlt),
            100 => Some(ControlKey::CtrlAltDel),
            101 => Some(ControlKey::LockScreen),
            _ => None,
        }
    }

    /// Swapping modifiers twice gives the key back, and only the four control
    /// and meta keys are changed by a swap.
    pub proof fn lemma_swap_modifier_involution(key: ControlKey)
        ensures
            key.spec_swap_modifier().spec_swap_modifier() == key,
            !(key is Control || key is Meta || key is RControl || key is RWin)
                ==> key.spec_swap_modifier() == key,
            key.spec_swap_modifier().spec_is_modifier() == key.spec_is_modifier(),
    {
    }

    /// Wire numbers and keys correspond one to one: a key is read back from
    /// its own number, and a number that gives a key is that key's number.
    pub proof fn lemma_wire_value_round_trip(key: ControlKey, value: int)
        ensures
            ControlKey::spec_from_i32(key.spec_value()) == Some(key),
            ControlKey::spec_from_i32(value) == Some(key) ==> key.spec_value() == value,
    {
    }
}

} // verus!
