use vstd::prelude::*;
use crate::control_key::ControlKey;
use crate::error::KeyboardError;
use crate::key::Key;
use crate::phys_key::PhysKeyCode;
use std::collections::HashMap;
use std::hash::Hash;
use vstd::std_specs::hash::obeys_key_model;

verus! {

broadcast use vstd::std_specs::hash::group_hash_axioms;

/// The number of pairs in the list of logical keys.
pub const CONTROL_KEY_PAIRS: usize = 72;

/// The number of pairs in the list of key positions.
pub const PHYS_KEY_PAIRS: usize = 119;

/// The list that pairs logical keys with native keys: the pair at `index`.
pub open spec fn control_key_pair(index: int) -> (ControlKey, Key) {
    if index == 0 {
        (ControlKey::Alt, Key::Alt)
    } else if index == 1 {
        (ControlKey::RAlt, Key::AltGr)
    } else if index == 2 {
        (ControlKey::Backspace, Key::Backspace)
    } else if index == 3 {
        (ControlKey::Control, Key::ControlLeft)
    } else if index == 4 {
        (ControlKey::RControl, Key::ControlRight)
    } else if index == 5 {
        (ControlKey::DownArrow, Key::DownArrow)
    } else if index == 6 {
        (ControlKey::Escape, Key::Escape)
    } else if index == 7 {
        (ControlKey::F1, Key::F1)
    } else if index == 8 {
        (ControlKey::F10, Key::F10)
    } else if index == 9 {
        (ControlKey::F11, Key::F11)
    } else if index == 10 {
        (ControlKey::F12, Key::F12)
    } else if index == 11 {
        (ControlKey::F2, Key::F2)
    } else if index == 12 {
        (ControlKey::F3, Key::F3)
    } else if index == 13 {
        (ControlKey::F4, Key::F4)
    } else if index == 14 {
        (ControlKey::F5, Key::F5)
    } else if index == 15 {
        (ControlKey::F6, Key::F6)
    } else if index == 16 {
        (ControlKey::F7, Key::F7)
    } else if index == 17 {
        (ControlKey::F8, Key::F8)
    } else if index == 18 {
        (ControlKey::F9, Key::F9)
    } else if index == 19 {
        (ControlKey::LeftArrow, Key::LeftArrow)
    } else if index == 20 {
        (ControlKey::Meta, Key::MetaLeft)
    } else if index == 21 {
        (ControlKey::RWin, Key::MetaRight)
    } else if index == 22 {
        (ControlKey::Return, Key::Return)
    } else if index == 23 {
        (ControlKey::RightArrow, Key::RightArrow)
    } else if index == 24 {
        (ControlKey::Shift, Key::ShiftLeft)
    } else if index == 25 {
        (ControlKey::RShift, Key::ShiftRight)
    } else if index == 26 {
        (ControlKey::Space, Key::Space)
    } else if index == 27 {
        (ControlKey::Tab, Key::Tab)
    } else if index == 28 {
        (ControlKey::UpArrow, Key::UpArrow)
    } else if index == 29 {
        (ControlKey::Delete, Key::Delete)
    } else if index == 30 {
        (ControlKey::Apps, Key::Apps)
    } else if index == 31 {
        (ControlKey::Cancel, Key::Cancel)
    } else if index == 32 {
        (ControlKey::Clear, Key::Clear)
    } else if index == 33 {
        (ControlKey::Kana, Key::Kana)
    } else if index == 34 {
        (ControlKey::Hangul, Key::Hangul)
    } else if index == 35 {
        (ControlKey::Junja, Key::Junja)
    } else if index == 36 {
        (ControlKey::Final, Key::Final)
    } else if index == 37 {
        (ControlKey::Hanja, Key::Hanja)
    } else if index == 38 {
        (ControlKey::Hanja, Key::Hanji)
    } else if index == 39 {
        (ControlKey::Convert, Key::Convert)
    } else if index == 40 {
        (ControlKey::Print, Key::Print)
    } else if index == 41 {
        (ControlKey::Select, Key::Select)
    } else if index == 42 {
        (ControlKey::Execute, Key::Execute)
    } else if index == 43 {
        (ControlKey::Snapshot, Key::PrintScreen)
    } else if index == 44 {
        (ControlKey::Help, Key::Help)
    } else if index == 45 {
        (ControlKey::Sleep, Key::Sleep)
    } else if index == 46 {
        (ControlKey::Separator, Key::Separator)
    } else if index == 47 {
        (ControlKey::NumpadEnter, Key::KpReturn)
    } else if index == 48 {
        (ControlKey::Numpad0, Key::Kp0)
    } else if index == 49 {
        (ControlKey::Numpad1, Key::Kp1)
    } else if index == 50 {
        (ControlKey::Numpad2, Key::Kp2)
    } else if index == 51 {
        (ControlKey::Numpad3, Key::Kp3)
    } else if index == 52 {
        (ControlKey::Numpad4, Key::Kp4)
    } else if index == 53 {
        (ControlKey::Numpad5, Key::Kp5)
    } else if index == 54 {
        (ControlKey::Numpad6, Key::Kp6)
    } else if index == 55 {
        (ControlKey::Numpad7, Key::Kp7)
    } else if index == 56 {
        (ControlKey::Numpad8, Key::Kp8)
    } else if index == 57 {
        (ControlKey::Numpad9, Key::Kp9)
    } else if index == 58 {
        (ControlKey::Divide, Key::KpDivide)
    } else if index == 59 {
        (ControlKey::Multiply, Key::KpMultiply)
    } else if index == 60 {
        (ControlKey::Decimal, Key::KpDecimal)
    } else if index == 61 {
        (ControlKey::Subtract, Key::KpMinus)
    } else if index == 62 {
        (ControlKey::Add, Key::KpPlus)
    } else if index == 63 {
        (ControlKey::CapsLock, Key::CapsLock)
    } else if index == 64 {
        (ControlKey::NumLock, Key::NumLock)
    } else if index == 65 {
        (ControlKey::Scroll, Key::ScrollLock)
    } else if index == 66 {
        (ControlKey::Home, Key::Home)
    } else if index == 67 {
        (ControlKey::End, Key::End)
    } else if index == 68 {
        (ControlKey::Insert, Key::Insert)
    } else if index == 69 {
        (ControlKey::PageUp, Key::PageUp)
    } else if index == 70 {
        (ControlKey::PageDown, Key::PageDown)
    } else {
        (ControlKey::Pause, Key::Pause)
    }
}

/// The list that pairs key positions with native keys: the pair at `index`.
pub open spec fn phys_key_pair(index: int) -> (PhysKeyCode, Key) {
    if index == 0 {
        (PhysKeyCode::AltLeft, Key::Alt)
    } else if index == 1 {
        (PhysKeyCode::AltRight, Key::AltGr)
    } else if index == 2 {
        (PhysKeyCode::ControlLeft, Key::ControlLeft)
    } else if index == 3 {
        (PhysKeyCode::ControlRight, Key::ControlRight)
    } else if index == 4 {
        (PhysKeyCode::Backspace, Key::Backspace)
    } else if index == 5 {
        (PhysKeyCode::CapsLock, Key::CapsLock)
    } else if index == 6 {
        (PhysKeyCode::Delete, Key::Delete)
    } else if index == 7 {
        (PhysKeyCode::DownArrow, Key::Delete)
    } else if index == 8 {
        (PhysKeyCode::End, Key::End)
    } else if index == 9 {
        (PhysKeyCode::Escape, Key::Escape)
    } else if index == 10 {
        (PhysKeyCode::F1, Key::F1)
    } else if index == 11 {
        (PhysKeyCode::F3, Key::F3)
    } else if index == 12 {
        (PhysKeyCode::F4, Key::F4)
    } else if index == 13 {
        (PhysKeyCode::F5, Key::F5)
    } else if index == 14 {
        (PhysKeyCode::F6, Key::F6)
    } else if index == 15 {
        (PhysKeyCode::F7, Key::F7)
    } else if index == 16 {
        (PhysKeyCode::F8, Key::F8)
    } else if index == 17 {
        (PhysKeyCode::F9, Key::F9)
    } else if index == 18 {
        (PhysKeyCode::F10, Key::F10)
    } else if index == 19 {
        (PhysKeyCode::F11, Key::F11)
    } else if index == 20 {
        (PhysKeyCode::F12, Key::F12)
    } else if index == 21 {
        (PhysKeyCode::F13, Key::F13)
    } else if index == 22 {
        (PhysKeyCode::F14, Key::F14)
    } else if index == 23 {
        (PhysKeyCode::F15, Key::F15)
    } else if index == 24 {
        (PhysKeyCode::F16, Key::F16)
    } else if index == 25 {
        (PhysKeyCode::F17, Key::F17)
    } else if index == 26 {
        (PhysKeyCode::F18, Key::F18)
    } else if index == 27 {
        (PhysKeyCode::F19, Key::F19)
    } else if index == 28 {
        (PhysKeyCode::F2, Key::F2)
    } else if index == 29 {
        (PhysKeyCode::F20, Key::F20)
    } else if index == 30 {
        (PhysKeyCode::Home, Key::Home)
    } else if index == 31 {
        (PhysKeyCode::LeftArrow, Key::LeftArrow)
    } else if index == 32 {
        (PhysKeyCode::MetaLeft, Key::MetaLeft)
    } else if index == 33 {
        (PhysKeyCode::MetaRight, Key::MetaRight)
    } else if index == 34 {
        (PhysKeyCode::PageDown, Key::PageDown)
    } else if index == 35 {
        (PhysKeyCode::PageUp, Key::PageUp)
    } else if index == 36 {
        (PhysKeyCode::Return, Key::Return)
    } else if index == 37 {
        (PhysKeyCode::ShiftLeft, Key::ShiftLeft)
    } else if index == 38 {
        (PhysKeyCode::ShiftRight, Key::ShiftRight)
    } else if index == 39 {
        (PhysKeyCode::Space, Key::Space)
    } else if index == 40 {
        (PhysKeyCode::Tab, Key::Tab)
    } else if index == 41 {
        (PhysKeyCode::UpArrow, Key::UpArrow)
    } else if index == 42 {
        (PhysKeyCode::PrintScreen, Key::PrintScreen)
    } else if index == 43 {
        (PhysKeyCode::ScrollLock, Key::ScrollLock)
    } else if index == 44 {
        (PhysKeyCode::Pause, Key::Pause)
    } else if index == 45 {
        (PhysKeyCode::NumLock, Key::NumLock)
    } else if index == 46 {
        (PhysKeyCode::BackQuote, Key::BackQuote)
    } else if index == 47 {
        (PhysKeyCode::Num1, Key::Num1)
    } else if index == 48 {
        (PhysKeyCode::Num2, Key::Num2)
    } else if index == 49 {
        (PhysKeyCode::Num3, Key::Num3)
    } else if index == 50 {
        (PhysKeyCode::Num4, Key::Num4)
    } else if index == 51 {
        (PhysKeyCode::Num5, Key::Num5)
    } else if index == 52 {
        (PhysKeyCode::Num6, Key::Num6)
    } else if index == 53 {
        (PhysKeyCode::Num7, Key::Num7)
    } else if index == 54 {
        (PhysKeyCode::Num8, Key::Num8)
    } else if index == 55 {
        (PhysKeyCode::Num9, Key::Num9)
    } else if index == 56 {
        (PhysKeyCode::Num0, Key::Num0)
    } else if index == 57 {
        (PhysKeyCode::Minus, Key::Minus)
    } else if index == 58 {
        (PhysKeyCode::Equal, Key::Equal)
    } else if index == 59 {
        (PhysKeyCode::KeyQ, Key::KeyQ)
    } else if index == 60 {
        (PhysKeyCode::KeyW, Key::KeyW)
    } else if index == 61 {
        (PhysKeyCode::KeyE, Key::KeyE)
    } else if index == 62 {
        (PhysKeyCode::KeyR, Key::KeyR)
    } else if index == 63 {
        (PhysKeyCode::KeyT, Key::KeyT)
    } else if index == 64 {
        (PhysKeyCode::KeyY, Key::KeyY)
    } else if index == 65 {
        (PhysKeyCode::KeyU, Key::KeyU)
    } else if index == 66 {
        (PhysKeyCode::KeyI, Key::KeyI)
    } else if index == 67 {
        (PhysKeyCode::KeyO, Key::KeyO)
    } else if index == 68 {
        (PhysKeyCode::KeyP, Key::KeyP)
    } else if index == 69 {
        (PhysKeyCode::LeftBracket, Key::LeftBracket)
    } else if index == 70 {
        (PhysKeyCode::RightBracket, Key::RightBracket)
    } else if index == 71 {
        (PhysKeyCode::KeyA, Key::KeyA)
    } else if index == 72 {
        (PhysKeyCode::KeyS, Key::KeyS)
    } else if index == 73 {
        (PhysKeyCode::KeyD, Key::KeyD)
    } else if index == 74 {
        (PhysKeyCode::KeyF, Key::KeyF)
    } else if index == 75 {
        (PhysKeyCode::KeyG, Key::KeyG)
    } else if index == 76 {
        (PhysKeyCode::KeyH, Key::KeyH)
    } else if index == 77 {
        (PhysKeyCode::KeyJ, Key::KeyJ)
    } else if index == 78 {
        (PhysKeyCode::KeyK, Key::KeyK)
    } else if index == 79 {
        (PhysKeyCode::KeyL, Key::KeyL)
    } else if index == 80 {
        (PhysKeyCode::SemiColon, Key::SemiColon)
    } else if index == 81 {
        (PhysKeyCode::Quote, Key::Quote)
    } else if index == 82 {
        (PhysKeyCode::BackSlash, Key::BackSlash)
    } else if index == 83 {
        (PhysKeyCode::IntlBackslash, Key::IntlBackslash)
    } else if index == 84 {
        (PhysKeyCode::KeyZ, Key::KeyZ)
    } else if index == 85 {
        (PhysKeyCode::KeyX, Key::KeyX)
    } else if index == 86 {
        (PhysKeyCode::KeyC, Key::KeyC)
    } else if index == 87 {
        (PhysKeyCode::KeyV, Key::KeyV)
    } else if index == 88 {
        (PhysKeyCode::KeyB, Key::KeyB)
    } else if index == 89 {
        (PhysKeyCode::KeyN, Key::KeyN)
    } else if index == 90 {
        (PhysKeyCode::KeyM, Key::KeyM)
    } else if index == 91 {
        (PhysKeyCode::Comma, Key::Comma)
    } else if index == 92 {
        (PhysKeyCode::Dot, Key::Dot)
    } else if index == 93 {
        (PhysKeyCode::Slash, Key::Slash)
    } else if index == 94 {
        (PhysKeyCode::Insert, Key::Insert)
    } else if index == 95 {
        (PhysKeyCode::KpReturn, Key::KpReturn)
    } else if index == 96 {
        (PhysKeyCode::KpMinus, Key::KpMinus)
    } else if index == 97 {
        (PhysKeyCode::KpPlus, Key::KpPlus)
    } else if index == 98 {
        (PhysKeyCode::KpMultiply, Key::KpMultiply)
    } else if index == 99 {
        (PhysKeyCode::KpDivide, Key::KpDivide)
    } else if index == 100 {
        (PhysKeyCode::KpDecimal, Key::KpDecimal)
    } else if index == 101 {
        (PhysKeyCode::Kp0, Key::Kp0)
    } else if index == 102 {
        (PhysKeyCode::Kp1, Key::Kp1)
    } else if index == 103 {
        (PhysKeyCode::Kp2, Key::Kp2)
    } else if index == 104 {
        (PhysKeyCode::Kp3, Key::Kp3)
    } else if index == 105 {
        (PhysKeyCode::Kp4, Key::Kp4)
    } else if index == 106 {
        (PhysKeyCode::Kp5, Key::Kp5)
    } else if index == 107 {
        (PhysKeyCode::Kp6, Key::Kp6)
    } else if index == 108 {
        (PhysKeyCode::Kp7, Key::Kp7)
    } else if index == 109 {
        (PhysKeyCode::Kp8, Key::Kp8)
    } else if index == 110 {
        (PhysKeyCode::Kp9, Key::Kp9)
    } else if index == 111 {
        (PhysKeyCode::Function, Key::Function)
    } else if index == 112 {
        (PhysKeyCode::Help, Key::Help)
    } else if index == 113 {
        (PhysKeyCode::RightArrow, Key::RightArrow)
    } else if index == 114 {
        (PhysKeyCode::KpDelete, Key::Delete)
    } else if index == 115 {
        (PhysKeyCode::VolumeDown, Key::VolumeDown)
    } else if index == 116 {
        (PhysKeyCode::VolumeUp, Key::VolumeUp)
    } else if index == 117 {
        (PhysKeyCode::VolumeMute, Key::VolumeMute)
    } else {
        (PhysKeyCode::Menu, Key::Apps)
    }
}

/// The list that pairs logical keys with native keys.
pub open spec fn control_key_table() -> Seq<(ControlKey, Key)> {
    Seq::new(CONTROL_KEY_PAIRS as nat, |index: int| control_key_pair(index))
}

/// The list that pairs key positions with native keys.
pub open spec fn phys_key_table() -> Seq<(PhysKeyCode, Key)> {
    Seq::new(PHYS_KEY_PAIRS as nat, |index: int| phys_key_pair(index))
}

/// What a list gives for `left`: the right side of the last pair whose left
/// side it is, at `index`, and no pair after it has that left side.
pub open spec fn is_last_left<L, R>(pairs: Seq<(L, R)>, index: int, left: L) -> bool {
    &&& 0 <= index < pairs.len()
    &&& pairs[index].0 == left
    &&& forall|later: int| index < later < pairs.len() ==> (#[trigger] pairs[later]).0 != left
}

/// What a list gives for `right`, read backwards: the left side of the last
/// pair whose right side it is, at `index`.
pub open spec fn is_last_right<L, R>(pairs: Seq<(L, R)>, index: int, right: R) -> bool {
    &&& 0 <= index < pairs.len()
    &&& pairs[index].1 == right
    &&& forall|later: int| index < later < pairs.len() ==> (#[trigger] pairs[later]).1 != right
}

/// No pair of the list has `left` on its left side.
pub open spec fn no_left<L, R>(pairs: Seq<(L, R)>, left: L) -> bool {
    forall|index: int| 0 <= index < pairs.len() ==> (#[trigger] pairs[index]).0 != left
}

/// No pair of the list has `right` on its right side.
pub open spec fn no_right<L, R>(pairs: Seq<(L, R)>, right: R) -> bool {
    forall|index: int| 0 <= index < pairs.len() ==> (#[trigger] pairs[index]).1 != right
}

/// The native key of a logical key: where the list names the logical key more than once, its last pair counts.
pub open spec fn control_to_key(from: ControlKey) -> Option<Key> {
    match from {
        ControlKey::Alt => Some(Key::Alt),
        ControlKey::RAlt => Some(Key::AltGr),
        ControlKey::Backspace => Some(Key::Backspace),
        ControlKey::Control => Some(Key::ControlLeft),
        ControlKey::RControl => Some(Key::ControlRight),
        ControlKey::DownArrow => Some(Key::DownArrow),
        ControlKey::Escape => Some(Key::Escape),
        ControlKey::F1 => Some(Key::F1),
        ControlKey::F10 => Some(Key::F10),
        ControlKey::F11 => Some(Key::F11),
        ControlKey::F12 => Some(Key::F12),
        ControlKey::F2 => Some(Key::F2),
        ControlKey::F3 => Some(Key::F3),
        ControlKey::F4 => Some(Key::F4),
        ControlKey::F5 => Some(Key::F5),
        ControlKey::F6 => Some(Key::F6),
        ControlKey::F7 => Some(Key::F7),
        ControlKey::F8 => Some(Key::F8),
        ControlKey::F9 => Some(Key::F9),
        ControlKey::LeftArrow => Some(Key::LeftArrow),
        ControlKey::Meta => Some(Key::MetaLeft),
        ControlKey::RWin => Some(Key::MetaRight),
        ControlKey::Return => Some(Key::Return),
        ControlKey::RightArrow => Some(Key::RightArrow),
        ControlKey::Shift => Some(Key::ShiftLeft),
        ControlKey::RShift => Some(Key::ShiftRight),
        ControlKey::Space => Some(Key::Space),
        ControlKey::Tab => Some(Key::Tab),
        ControlKey::UpArrow => Some(Key::UpArrow),
        ControlKey::Delete => Some(Key::Delete),
        ControlKey::Apps => Some(Key::Apps),
        ControlKey::Cancel => Some(Key::Cancel),
        ControlKey::Clear => Some(Key::Clear),
        ControlKey::Kana => Some(Key::Kana),
        ControlKey::Hangul => Some(Key::Hangul),
        ControlKey::Junja => Some(Key::Junja),
        ControlKey::Final => Some(Key::Final),
        ControlKey::Hanja => Some(Key::Hanji),
        ControlKey::Convert => Some(Key::Convert),
        ControlKey::Print => Some(Key::Print),
        ControlKey::Select => Some(Key::Select),
        ControlKey::Execute => Some(Key::Execute),
        ControlKey::Snapshot => Some(Key::PrintScreen),
        ControlKey::Help => Some(Key::Help),
        ControlKey::Sleep => Some(Key::Sleep),
        ControlKey::Separator => Some(Key::Separator),
        ControlKey::NumpadEnter => Some(Key::KpReturn),
        ControlKey::Numpad0 => Some(Key::Kp0),
        ControlKey::Numpad1 => Some(Key::Kp1),
        ControlKey::Numpad2 => Some(Key::Kp2),
        ControlKey::Numpad3 => Some(Key::Kp3),
        ControlKey::Numpad4 => Some(Key::Kp4),
        ControlKey::Numpad5 => Some(Key::Kp5),
        ControlKey::Numpad6 => Some(Key::Kp6),
        ControlKey::Numpad7 => Some(Key::Kp7),
        ControlKey::Numpad8 => Some(Key::Kp8),
        ControlKey::Numpad9 => Some(Key::Kp9),
        ControlKey::Divide => Some(Key::KpDivide),
        ControlKey::Multiply => Some(Key::KpMultiply),
        ControlKey::Decimal => Some(Key::KpDecimal),
        ControlKey::Subtract => Some(Key::KpMinus),
        ControlKey::Add => Some(Key::KpPlus),
        ControlKey::CapsLock => Some(Key::CapsLock),
        ControlKey::NumLock => Some(Key::NumLock),
        ControlKey::Scroll => Some(Key::ScrollLock),
        ControlKey::Home => Some(Key::Home),
        ControlKey::End => Some(Key::End),
        ControlKey::Insert => Some(Key::Insert),
        ControlKey::PageUp => Some(Key::PageUp),
        ControlKey::PageDown => Some(Key::PageDown),
        ControlKey::Pause => Some(Key::Pause),
        _ => None,
    }
}

/// Where the list holds the pair that decides the native key of a logical key, or -1.
pub open spec fn control_pair_index(from: ControlKey) -> int {
    match from {
        ControlKey::Alt => 0,
        ControlKey::RAlt => 1,
        ControlKey::Backspace => 2,
        ControlKey::Control => 3,
        ControlKey::RControl => 4,
        ControlKey::DownArrow => 5,
        ControlKey::Escape => 6,
        ControlKey::F1 => 7,
        ControlKey::F10 => 8,
        ControlKey::F11 => 9,
        ControlKey::F12 => 10,
        ControlKey::F2 => 11,
        ControlKey::F3 => 12,
        ControlKey::F4 => 13,
        ControlKey::F5 => 14,
        ControlKey::F6 => 15,
        ControlKey::F7 => 16,
        ControlKey::F8 => 17,
        ControlKey::F9 => 18,
        ControlKey::LeftArrow => 19,
        ControlKey::Meta => 20,
        ControlKey::RWin => 21,
        ControlKey::Return => 22,
        ControlKey::RightArrow => 23,
        ControlKey::Shift => 24,
        ControlKey::RShift => 25,
        ControlKey::Space => 26,
        ControlKey::Tab => 27,
        ControlKey::UpArrow => 28,
        ControlKey::Delete => 29,
        ControlKey::Apps => 30,
        ControlKey::Cancel => 31,
        ControlKey::Clear => 32,
        ControlKey::Kana => 33,
        ControlKey::Hangul => 34,
        ControlKey::Junja => 35,
        ControlKey::Final => 36,
        ControlKey::Hanja => 38,
        ControlKey::Convert => 39,
        ControlKey::Print => 40,
        ControlKey::Select => 41,
        ControlKey::Execute => 42,
        ControlKey::Snapshot => 43,
        ControlKey::Help => 44,
        ControlKey::Sleep => 45,
        ControlKey::Separator => 46,
        ControlKey::NumpadEnter => 47,
        ControlKey::Numpad0 => 48,
        ControlKey::Numpad1 => 49,
        ControlKey::Numpad2 => 50,
        ControlKey::Numpad3 => 51,
        ControlKey::Numpad4 => 52,
        ControlKey::Numpad5 => 53,
        ControlKey::Numpad6 => 54,
        ControlKey::Numpad7 => 55,
        ControlKey::Numpad8 => 56,
        ControlKey::Numpad9 => 57,
        ControlKey::Divide => 58,
        ControlKey::Multiply => 59,
        ControlKey::Decimal => 60,
        ControlKey::Subtract => 61,
        ControlKey::Add => 62,
        ControlKey::CapsLock => 63,
        ControlKey::NumLock => 64,
        ControlKey::Scroll => 65,
        ControlKey::Home => 66,
        ControlKey::End => 67,
        ControlKey::Insert => 68,
        ControlKey::PageUp => 69,
        ControlKey::PageDown => 70,
        ControlKey::Pause => 71,
        _ => -1,
    }
}

/// The logical key of a native key: where the list names the native key more than once, its last pair counts.
pub open spec fn key_to_control(from: Key) -> Option<ControlKey> {
    match from {
        Key::Alt => Some(ControlKey::Alt),
        Key::AltGr => Some(ControlKey::RAlt),
        Key::Backspace => Some(ControlKey::Backspace),
        Key::ControlLeft => Some(ControlKey::Control),
        Key::ControlRight => Some(ControlKey::RControl),
        Key::DownArrow => Some(ControlKey::DownArrow),
        Key::Escape => Some(ControlKey::Escape),
        Key::F1 => Some(ControlKey::F1),
        Key::F10 => Some(ControlKey::F10),
        Key::F11 => Some(ControlKey::F11),
        Key::F12 => Some(ControlKey::F12),
        Key::F2 => Some(ControlKey::F2),
        Key::F3 => Some(ControlKey::F3),
        Key::F4 => Some(ControlKey::F4),
        Key::F5 => Some(ControlKey::F5),
        Key::F6 => Some(ControlKey::F6),
        Key::F7 => Some(ControlKey::F7),
        Key::F8 => Some(ControlKey::F8),
        Key::F9 => Some(ControlKey::F9),
        Key::LeftArrow => Some(ControlKey::LeftArrow),
        Key::MetaLeft => Some(ControlKey::Meta),
        Key::MetaRight => Some(ControlKey::RWin),
        Key::Return => Some(ControlKey::Return),
        Key::RightArrow => Some(ControlKey::RightArrow),
        Key::ShiftLeft => Some(ControlKey::Shift),
        Key::ShiftRight => Some(ControlKey::RShift),
        Key::Space => Some(ControlKey::Space),
        Key::Tab => Some(ControlKey::Tab),
        Key::UpArrow => Some(ControlKey::UpArrow),
        Key::Delete => Some(ControlKey::Delete),
        Key::Apps => Some(ControlKey::Apps),
        Key::Cancel => Some(ControlKey::Cancel),
        Key::Clear => Some(ControlKey::Clear),
        Key::Kana => Some(ControlKey::Kana),
        Key::Hangul => Some(ControlKey::Hangul),
        Key::Junja => Some(ControlKey::Junja),
        Key::Final => Some(ControlKey::Final),
        Key::Hanja => Some(ControlKey::Hanja),
        Key::Hanji => Some(ControlKey::Hanja),
        Key::Convert => Some(ControlKey::Convert),
        Key::Print => Some(ControlKey::Print),
        Key::Select => Some(ControlKey::Select),
        Key::Execute => Some(ControlKey::Execute),
        Key::PrintScreen => Some(ControlKey::Snapshot),
        Key::Help => Some(ControlKey::Help),
        Key::Sleep => Some(ControlKey::Sleep),
        Key::Separator => Some(ControlKey::Separator),
        Key::KpReturn => Some(ControlKey::NumpadEnter),
        Key::Kp0 => Some(ControlKey::Numpad0),
        Key::Kp1 => Some(ControlKey::Numpad1),
        Key::Kp2 => Some(ControlKey::Numpad2),
        Key::Kp3 => Some(ControlKey::Numpad3),
        Key::Kp4 => Some(ControlKey::Numpad4),
        Key::Kp5 => Some(ControlKey::Numpad5),
        Key::Kp6 => Some(ControlKey::Numpad6),
        Key::Kp7 => Some(ControlKey::Numpad7),
        Key::Kp8 => Some(ControlKey::Numpad8),
        Key::Kp9 => Some(ControlKey::Numpad9),
        Key::KpDivide => Some(ControlKey::Divide),
        Key::KpMultiply => Some(ControlKey::Multiply),
        Key::KpDecimal => Some(ControlKey::Decimal),
        Key::KpMinus => Some(ControlKey::Subtract),
        Key::KpPlus => Some(ControlKey::Add),
        Key::CapsLock => Some(ControlKey::CapsLock),
        Key::NumLock => Some(ControlKey::NumLock),
        Key::ScrollLock => Some(ControlKey::Scroll),
        Key::Home => Some(ControlKey::Home),
        Key::End => Some(ControlKey::End),
        Key::Insert => Some(ControlKey::Insert),
        Key::PageUp => Some(ControlKey::PageUp),
        Key::PageDown => Some(ControlKey::PageDown),
        Key::Pause => Some(ControlKey::Pause),
        _ => None,
    }
}

/// Where the list holds the pair that decides the logical key of a native key, or -1.
pub open spec fn key_control_pair_index(from: Key) -> int {
    match from {
        Key::Alt => 0,
        Key::AltGr => 1,
        Key::Backspace => 2,
        Key::ControlLeft => 3,
        Key::ControlRight => 4,
        Key::DownArrow => 5,
        Key::Escape => 6,
        Key::F1 => 7,
        Key::F10 => 8,
        Key::F11 => 9,
        Key::F12 => 10,
        Key::F2 => 11,
        Key::F3 => 12,
        Key::F4 => 13,
        Key::F5 => 14,
        Key::F6 => 15,
        Key::F7 => 16,
        Key::F8 => 17,
        Key::F9 => 18,
        Key::LeftArrow => 19,
        Key::MetaLeft => 20,
        Key::MetaRight => 21,
        Key::Return => 22,
        Key::RightArrow => 23,
        Key::ShiftLeft => 24,
        Key::ShiftRight => 25,
        Key::Space => 26,
        Key::Tab => 27,
        Key::UpArrow => 28,
        Key::Delete => 29,
        Key::Apps => 30,
        Key::Cancel => 31,
        Key::Clear => 32,
        Key::Kana => 33,
        Key::Hangul => 34,
        Key::Junja => 35,
        Key::Final => 36,
        Key::Hanja => 37,
        Key::Hanji => 38,
        Key::Convert => 39,
        Key::Print => 40,
        Key::Select => 41,
        Key::Execute => 42,
        Key::PrintScreen => 43,
        Key::Help => 44,
        Key::Sleep => 45,
        Key::Separator => 46,
        Key::KpReturn => 47,
        Key::Kp0 => 48,
        Key::Kp1 => 49,
        Key::Kp2 => 50,
        Key::Kp3 => 51,
        Key::Kp4 => 52,
        Key::Kp5 => 53,
        Key::Kp6 => 54,
        Key::Kp7 => 55,
        Key::Kp8 => 56,
        Key::Kp9 => 57,
        Key::KpDivide => 58,
        Key::KpMultiply => 59,
        Key::KpDecimal => 60,
        Key::KpMinus => 61,
        Key::KpPlus => 62,
        Key::CapsLock => 63,
        Key::NumLock => 64,
        Key::ScrollLock => 65,
        Key::Home => 66,
        Key::End => 67,
        Key::Insert => 68,
        Key::PageUp => 69,
        Key::PageDown => 70,
        Key::Pause => 71,
        _ => -1,
    }
}

/// The native key at a key position: where the list names the position more than once, its last pair counts.
pub open spec fn phys_to_key(from: PhysKeyCode) -> Option<Key> {
    match from {
        PhysKeyCode::AltLeft => Some(Key::Alt),
        PhysKeyCode::AltRight => Some(Key::AltGr),
        PhysKeyCode::ControlLeft => Some(Key::ControlLeft),
        PhysKeyCode::ControlRight => Some(Key::ControlRight),
        PhysKeyCode::Backspace => Some(Key::Backspace),
        PhysKeyCode::CapsLock => Some(Key::CapsLock),
        PhysKeyCode::Delete => Some(Key::Delete),
        PhysKeyCode::DownArrow => Some(Key::Delete),
        PhysKeyCode::End => Some(Key::End),
        PhysKeyCode::Escape => Some(Key::Escape),
        PhysKeyCode::F1 => Some(Key::F1),
        PhysKeyCode::F3 => Some(Key::F3),
        PhysKeyCode::F4 => Some(Key::F4),
        PhysKeyCode::F5 => Some(Key::F5),
        PhysKeyCode::F6 => Some(Key::F6),
        PhysKeyCode::F7 => Some(Key::F7),
        PhysKeyCode::F8 => Some(Key::F8),
        PhysKeyCode::F9 => Some(Key::F9),
        PhysKeyCode::F10 => Some(Key::F10),
        PhysKeyCode::F11 => Some(Key::F11),
        PhysKeyCode::F12 => Some(Key::F12),
        PhysKeyCode::F13 => Some(Key::F13),
        PhysKeyCode::F14 => Some(Key::F14),
        PhysKeyCode::F15 => Some(Key::F15),
        PhysKeyCode::F16 => Some(Key::F16),
        PhysKeyCode::F17 => Some(Key::F17),
        PhysKeyCode::F18 => Some(Key::F18),
        PhysKeyCode::F19 => Some(Key::F19),
        PhysKeyCode::F2 => Some(Key::F2),
        PhysKeyCode::F20 => Some(Key::F20),
        PhysKeyCode::Home => Some(Key::Home),
        PhysKeyCode::LeftArrow => Some(Key::LeftArrow),
        PhysKeyCode::MetaLeft => Some(Key::MetaLeft),
        PhysKeyCode::MetaRight => Some(Key::MetaRight),
        PhysKeyCode::PageDown => Some(Key::PageDown),
        PhysKeyCode::PageUp => Some(Key::PageUp),
        PhysKeyCode::Return => Some(Key::Return),
        PhysKeyCode::ShiftLeft => Some(Key::ShiftLeft),
        PhysKeyCode::ShiftRight => Some(Key::ShiftRight),
        PhysKeyCode::Space => Some(Key::Space),
        PhysKeyCode::Tab => Some(Key::Tab),
        PhysKeyCode::UpArrow => Some(Key::UpArrow),
        PhysKeyCode::PrintScreen => Some(Key::PrintScreen),
        PhysKeyCode::ScrollLock => Some(Key::ScrollLock),
        PhysKeyCode::Pause => Some(Key::Pause),
        PhysKeyCode::NumLock => Some(Key::NumLock),
        PhysKeyCode::BackQuote => Some(Key::BackQuote),
        PhysKeyCode::Num1 => Some(Key::Num1),
        PhysKeyCode::Num2 => Some(Key::Num2),
        PhysKeyCode::Num3 => Some(Key::Num3),
        PhysKeyCode::Num4 => Some(Key::Num4),
        PhysKeyCode::Num5 => Some(Key::Num5),
        PhysKeyCode::Num6 => Some(Key::Num6),
        PhysKeyCode::Num7 => Some(Key::Num7),
        PhysKeyCode::Num8 => Some(Key::Num8),
        PhysKeyCode::Num9 => Some(Key::Num9),
        PhysKeyCode::Num0 => Some(Key::Num0),
        PhysKeyCode::Minus => Some(Key::Minus),
        PhysKeyCode::Equal => Some(Key::Equal),
        PhysKeyCode::KeyQ => Some(Key::KeyQ),
        PhysKeyCode::KeyW => Some(Key::KeyW),
        PhysKeyCode::KeyE => Some(Key::KeyE),
        PhysKeyCode::KeyR => Some(Key::KeyR),
        PhysKeyCode::KeyT => Some(Key::KeyT),
        PhysKeyCode::KeyY => Some(Key::KeyY),
        PhysKeyCode::KeyU => Some(Key::KeyU),
        PhysKeyCode::KeyI => Some(Key::KeyI),
        PhysKeyCode::KeyO => Some(Key::KeyO),
        PhysKeyCode::KeyP => Some(Key::KeyP),
        PhysKeyCode::LeftBracket => Some(Key::LeftBracket),
        PhysKeyCode::RightBracket => Some(Key::RightBracket),
        PhysKeyCode::KeyA => Some(Key::KeyA),
        PhysKeyCode::KeyS => Some(Key::KeyS),
        PhysKeyCode::KeyD => Some(Key::KeyD),
        PhysKeyCode::KeyF => Some(Key::KeyF),
        PhysKeyCode::KeyG => Some(Key::KeyG),
        PhysKeyCode::KeyH => Some(Key::KeyH),
        PhysKeyCode::KeyJ => Some(Key::KeyJ),
        PhysKeyCode::KeyK => Some(Key::KeyK),
        PhysKeyCode::KeyL => Some(Key::KeyL),
        PhysKeyCode::SemiColon => Some(Key::SemiColon),
        PhysKeyCode::Quote => Some(Key::Quote),
        PhysKeyCode::BackSlash => Some(Key::BackSlash),
        PhysKeyCode::IntlBackslash => Some(Key::IntlBackslash),
        PhysKeyCode::KeyZ => Some(Key::KeyZ),
        PhysKeyCode::KeyX => Some(Key::KeyX),
        PhysKeyCode::KeyC => Some(Key::KeyC),
        PhysKeyCode::KeyV => Some(Key::KeyV),
        PhysKeyCode::KeyB => Some(Key::KeyB),
        PhysKeyCode::KeyN => Some(Key::KeyN),
        PhysKeyCode::KeyM => Some(Key::KeyM),
        PhysKeyCode::Comma => Some(Key::Comma),
        PhysKeyCode::Dot => Some(Key::Dot),
        PhysKeyCode::Slash => Some(Key::Slash),
        PhysKeyCode::Insert => Some(Key::Insert),
        PhysKeyCode::KpReturn => Some(Key::KpReturn),
        PhysKeyCode::KpMinus => Some(Key::KpMinus),
        PhysKeyCode::KpPlus => Some(Key::KpPlus),
        PhysKeyCode::KpMultiply => Some(Key::KpMultiply),
        PhysKeyCode::KpDivide => Some(Key::KpDivide),
        PhysKeyCode::KpDecimal => Some(Key::KpDecimal),
        PhysKeyCode::Kp0 => Some(Key::Kp0),
        PhysKeyCode::Kp1 => Some(Key::Kp1),
        PhysKeyCode::Kp2 => Some(Key::Kp2),
        PhysKeyCode::Kp3 => Some(Key::Kp3),
        PhysKeyCode::Kp4 => Some(Key::Kp4),
        PhysKeyCode::Kp5 => Some(Key::Kp5),
        PhysKeyCode::Kp6 => Some(Key::Kp6),
        PhysKeyCode::Kp7 => Some(Key::Kp7),
        PhysKeyCode::Kp8 => Some(Key::Kp8),
        PhysKeyCode::Kp9 => Some(Key::Kp9),
        PhysKeyCode::Function => Some(Key::Function),
        PhysKeyCode::Help => Some(Key::Help),
        PhysKeyCode::RightArrow => Some(Key::RightArrow),
        PhysKeyCode::KpDelete => Some(Key::Delete),
        PhysKeyCode::VolumeDown => Some(Key::VolumeDown),
        PhysKeyCode::VolumeUp => Some(Key::VolumeUp),
        PhysKeyCode::VolumeMute => Some(Key::VolumeMute),
        PhysKeyCode::Menu => Some(Key::Apps),
    }
}

/// Where the list holds the pair that decides the native key of a position, or -1.
pub open spec fn phys_pair_index(from: PhysKeyCode) -> int {
    match from {
        PhysKeyCode::AltLeft => 0,
        PhysKeyCode::AltRight => 1,
        PhysKeyCode::ControlLeft => 2,
        PhysKeyCode::ControlRight => 3,
        PhysKeyCode::Backspace => 4,
        PhysKeyCode::CapsLock => 5,
        PhysKeyCode::Delete => 6,
        PhysKeyCode::DownArrow => 7,
        PhysKeyCode::End => 8,
        PhysKeyCode::Escape => 9,
        PhysKeyCode::F1 => 10,
        PhysKeyCode::F3 => 11,
        PhysKeyCode::F4 => 12,
        PhysKeyCode::F5 => 13,
        PhysKeyCode::F6 => 14,
        PhysKeyCode::F7 => 15,
        PhysKeyCode::F8 => 16,
        PhysKeyCode::F9 => 17,
        PhysKeyCode::F10 => 18,
        PhysKeyCode::F11 => 19,
        PhysKeyCode::F12 => 20,
        PhysKeyCode::F13 => 21,
        PhysKeyCode::F14 => 22,
        PhysKeyCode::F15 => 23,
        PhysKeyCode::F16 => 24,
        PhysKeyCode::F17 => 25,
        PhysKeyCode::F18 => 26,
        PhysKeyCode::F19 => 27,
        PhysKeyCode::F2 => 28,
        PhysKeyCode::F20 => 29,
        PhysKeyCode::Home => 30,
        PhysKeyCode::LeftArrow => 31,
        PhysKeyCode::MetaLeft => 32,
        PhysKeyCode::MetaRight => 33,
        PhysKeyCode::PageDown => 34,
        PhysKeyCode::PageUp => 35,
        PhysKeyCode::Return => 36,
        PhysKeyCode::ShiftLeft => 37,
        PhysKeyCode::ShiftRight => 38,
        PhysKeyCode::Space => 39,
        PhysKeyCode::Tab => 40,
        PhysKeyCode::UpArrow => 41,
        PhysKeyCode::PrintScreen => 42,
        PhysKeyCode::ScrollLock => 43,
        PhysKeyCode::Pause => 44,
        PhysKeyCode::NumLock => 45,
        PhysKeyCode::BackQuote => 46,
        PhysKeyCode::Num1 => 47,
        PhysKeyCode::Num2 => 48,
        PhysKeyCode::Num3 => 49,
        PhysKeyCode::Num4 => 50,
        PhysKeyCode::Num5 => 51,
        PhysKeyCode::Num6 => 52,
        PhysKeyCode::Num7 => 53,
        PhysKeyCode::Num8 => 54,
        PhysKeyCode::Num9 => 55,
        PhysKeyCode::Num0 => 56,
        PhysKeyCode::Minus => 57,
        PhysKeyCode::Equal => 58,
        PhysKeyCode::KeyQ => 59,
        PhysKeyCode::KeyW => 60,
        PhysKeyCode::KeyE => 61,
        PhysKeyCode::KeyR => 62,
        PhysKeyCode::KeyT => 63,
        PhysKeyCode::KeyY => 64,
        PhysKeyCode::KeyU => 65,
        PhysKeyCode::KeyI => 66,
        PhysKeyCode::KeyO => 67,
        PhysKeyCode::KeyP => 68,
        PhysKeyCode::LeftBracket => 69,
        PhysKeyCode::RightBracket => 70,
        PhysKeyCode::KeyA => 71,
        PhysKeyCode::KeyS => 72,
        PhysKeyCode::KeyD => 73,
        PhysKeyCode::KeyF => 74,
        PhysKeyCode::KeyG => 75,
        PhysKeyCode::KeyH => 76,
        PhysKeyCode::KeyJ => 77,
        PhysKeyCode::KeyK => 78,
        PhysKeyCode::KeyL => 79,
        PhysKeyCode::SemiColon => 80,
        PhysKeyCode::Quote => 81,
        PhysKeyCode::BackSlash => 82,
        PhysKeyCode::IntlBackslash => 83,
        PhysKeyCode::KeyZ => 84,
        PhysKeyCode::KeyX => 85,
        PhysKeyCode::KeyC => 86,
        PhysKeyCode::KeyV => 87,
        PhysKeyCode::KeyB => 88,
        PhysKeyCode::KeyN => 89,
        PhysKeyCode::KeyM => 90,
        PhysKeyCode::Comma => 91,
        PhysKeyCode::Dot => 92,
        PhysKeyCode::Slash => 93,
        PhysKeyCode::Insert => 94,
        PhysKeyCode::KpReturn => 95,
        PhysKeyCode::KpMinus => 96,
        PhysKeyCode::KpPlus => 97,
        PhysKeyCode::KpMultiply => 98,
        PhysKeyCode::KpDivide => 99,
        PhysKeyCode::KpDecimal => 100,
        PhysKeyCode::Kp0 => 101,
        PhysKeyCode::Kp1 => 102,
        PhysKeyCode::Kp2 => 103,
        PhysKeyCode::Kp3 => 104,
        PhysKeyCode::Kp4 => 105,
        PhysKeyCode::Kp5 => 106,
        PhysKeyCode::Kp6 => 107,
        PhysKeyCode::Kp7 => 108,
        PhysKeyCode::Kp8 => 109,
        PhysKeyCode::Kp9 => 110,
        PhysKeyCode::Function => 111,
        PhysKeyCode::Help => 112,
        PhysKeyCode::RightArrow => 113,
        PhysKeyCode::KpDelete => 114,
        PhysKeyCode::VolumeDown => 115,
        PhysKeyCode::VolumeUp => 116,
        PhysKeyCode::VolumeMute => 117,
        PhysKeyCode::Menu => 118,
    }
}

/// The position of a native key: where the list names the native key more than once, its last pair counts.
pub open spec fn key_to_phys(from: Key) -> Option<PhysKeyCode> {
    match from {
        Key::Alt => Some(PhysKeyCode::AltLeft),
        Key::AltGr => Some(PhysKeyCode::AltRight),
        Key::ControlLeft => Some(PhysKeyCode::ControlLeft),
        Key::ControlRight => Some(PhysKeyCode::ControlRight),
        Key::Backspace => Some(PhysKeyCode::Backspace),
        Key::CapsLock => Some(PhysKeyCode::CapsLock),
        Key::Delete => Some(PhysKeyCode::KpDelete),
        Key::End => Some(PhysKeyCode::End),
        Key::Escape => Some(PhysKeyCode::Escape),
        Key::F1 => Some(PhysKeyCode::F1),
        Key::F3 => Some(PhysKeyCode::F3),
        Key::F4 => Some(PhysKeyCode::F4),
        Key::F5 => Some(PhysKeyCode::F5),
        Key::F6 => Some(PhysKeyCode::F6),
        Key::F7 => Some(PhysKeyCode::F7),
        Key::F8 => Some(PhysKeyCode::F8),
        Key::F9 => Some(PhysKeyCode::F9),
        Key::F10 => Some(PhysKeyCode::F10),
        Key::F11 => Some(PhysKeyCode::F11),
        Key::F12 => Some(PhysKeyCode::F12),
        Key::F13 => Some(PhysKeyCode::F13),
        Key::F14 => Some(PhysKeyCode::F14),
        Key::F15 => Some(PhysKeyCode::F15),
        Key::F16 => Some(PhysKeyCode::F16),
        Key::F17 => Some(PhysKeyCode::F17),
        Key::F18 => Some(PhysKeyCode::F18),
        Key::F19 => Some(PhysKeyCode::F19),
        Key::F2 => Some(PhysKeyCode::F2),
        Key::F20 => Some(PhysKeyCode::F20),
        Key::Home => Some(PhysKeyCode::Home),
        Key::LeftArrow => Some(PhysKeyCode::LeftArrow),
        Key::MetaLeft => Some(PhysKeyCode::MetaLeft),
        Key::MetaRight => Some(PhysKeyCode::MetaRight),
        Key::PageDown => Some(PhysKeyCode::PageDown),
        Key::PageUp => Some(PhysKeyCode::PageUp),
        Key::Return => Some(PhysKeyCode::Return),
        Key::ShiftLeft => Some(PhysKeyCode::ShiftLeft),
        Key::ShiftRight => Some(PhysKeyCode::ShiftRight),
        Key::Space => Some(PhysKeyCode::Space),
        Key::Tab => Some(PhysKeyCode::Tab),
        Key::UpArrow => Some(PhysKeyCode::UpArrow),
        Key::PrintScreen => Some(PhysKeyCode::PrintScreen),
        Key::ScrollLock => Some(PhysKeyCode::ScrollLock),
        Key::Pause => Some(PhysKeyCode::Pause),
        Key::NumLock => Some(PhysKeyCode::NumLock),
        Key::BackQuote => Some(PhysKeyCode::BackQuote),
        Key::Num1 => Some(PhysKeyCode::Num1),
        Key::Num2 => Some(PhysKeyCode::Num2),
        Key::Num3 => Some(PhysKeyCode::Num3),
        Key::Num4 => Some(PhysKeyCode::Num4),
        Key::Num5 => Some(PhysKeyCode::Num5),
        Key::Num6 => Some(PhysKeyCode::Num6),
        Key::Num7 => Some(PhysKeyCode::Num7),
        Key::Num8 => Some(PhysKeyCode::Num8),
        Key::Num9 => Some(PhysKeyCode::Num9),
        Key::Num0 => Some(PhysKeyCode::Num0),
        Key::Minus => Some(PhysKeyCode::Minus),
        Key::Equal => Some(PhysKeyCode::Equal),
        Key::KeyQ => Some(PhysKeyCode::KeyQ),
        Key::KeyW => Some(PhysKeyCode::KeyW),
        Key::KeyE => Some(PhysKeyCode::KeyE),
        Key::KeyR => Some(PhysKeyCode::KeyR),
        Key::KeyT => Some(PhysKeyCode::KeyT),
        Key::KeyY => Some(PhysKeyCode::KeyY),
        Key::KeyU => Some(PhysKeyCode::KeyU),
        Key::KeyI => Some(PhysKeyCode::KeyI),
        Key::KeyO => Some(PhysKeyCode::KeyO),
        Key::KeyP => Some(PhysKeyCode::KeyP),
        Key::LeftBracket => Some(PhysKeyCode::LeftBracket),
        Key::RightBracket => Some(PhysKeyCode::RightBracket),
        Key::KeyA => Some(PhysKeyCode::KeyA),
        Key::KeyS => Some(PhysKeyCode::KeyS),
        Key::KeyD => Some(PhysKeyCode::KeyD),
        Key::KeyF => Some(PhysKeyCode::KeyF),
        Key::KeyG => Some(PhysKeyCode::KeyG),
        Key::KeyH => Some(PhysKeyCode::KeyH),
        Key::KeyJ => Some(PhysKeyCode::KeyJ),
        Key::KeyK => Some(PhysKeyCode::KeyK),
        Key::KeyL => Some(PhysKeyCode::KeyL),
        Key::SemiColon => Some(PhysKeyCode::SemiColon),
        Key::Quote => Some(PhysKeyCode::Quote),
        Key::BackSlash => Some(PhysKeyCode::BackSlash),
        Key::IntlBackslash => Some(PhysKeyCode::IntlBackslash),
        Key::KeyZ => Some(PhysKeyCode::KeyZ),
        Key::KeyX => Some(PhysKeyCode::KeyX),
        Key::KeyC => Some(PhysKeyCode::KeyC),
        Key::KeyV => Some(PhysKeyCode::KeyV),
        Key::KeyB => Some(PhysKeyCode::KeyB),
        Key::KeyN => Some(PhysKeyCode::KeyN),
        Key::KeyM => Some(PhysKeyCode::KeyM),
        Key::Comma => Some(PhysKeyCode::Comma),
        Key::Dot => Some(PhysKeyCode::Dot),
        Key::Slash => Some(PhysKeyCode::Slash),
        Key::Insert => Some(PhysKeyCode::Insert),
        Key::KpReturn => Some(PhysKeyCode::KpReturn),
        Key::KpMinus => Some(PhysKeyCode::KpMinus),
        Key::KpPlus => Some(PhysKeyCode::KpPlus),
        Key::KpMultiply => Some(PhysKeyCode::KpMultiply),
        Key::KpDivide => Some(PhysKeyCode::KpDivide),
        Key::KpDecimal => Some(PhysKeyCode::KpDecimal),
        Key::Kp0 => Some(PhysKeyCode::Kp0),
        Key::Kp1 => Some(PhysKeyCode::Kp1),
        Key::Kp2 => Some(PhysKeyCode::Kp2),
        Key::Kp3 => Some(PhysKeyCode::Kp3),
        Key::Kp4 => Some(PhysKeyCode::Kp4),
        Key::Kp5 => Some(PhysKeyCode::Kp5),
        Key::Kp6 => Some(PhysKeyCode::Kp6),
        Key::Kp7 => Some(PhysKeyCode::Kp7),
        Key::Kp8 => Some(PhysKeyCode::Kp8),
        Key::Kp9 => Some(PhysKeyCode::Kp9),
        Key::Function => Some(PhysKeyCode::Function),
        Key::Help => Some(PhysKeyCode::Help),
        Key::RightArrow => Some(PhysKeyCode::RightArrow),
        Key::VolumeDown => Some(PhysKeyCode::VolumeDown),
        Key::VolumeUp => Some(PhysKeyCode::VolumeUp),
        Key::VolumeMute => Some(PhysKeyCode::VolumeMute),
        Key::Apps => Some(PhysKeyCode::Menu),
        _ => None,
    }
}

/// Where the list holds the pair that decides the position of a native key, or -1.
pub open spec fn key_phys_pair_index(from: Key) -> int {
    match from {
        Key::Alt => 0,
        Key::AltGr => 1,
        Key::ControlLeft => 2,
        Key::ControlRight => 3,
        Key::Backspace => 4,
        Key::CapsLock => 5,
        Key::Delete => 114,
        Key::End => 8,
        Key::Escape => 9,
        Key::F1 => 10,
        Key::F3 => 11,
        Key::F4 => 12,
        Key::F5 => 13,
        Key::F6 => 14,
        Key::F7 => 15,
        Key::F8 => 16,
        Key::F9 => 17,
        Key::F10 => 18,
        Key::F11 => 19,
        Key::F12 => 20,
        Key::F13 => 21,
        Key::F14 => 22,
        Key::F15 => 23,
        Key::F16 => 24,
        Key::F17 => 25,
        Key::F18 => 26,
        Key::F19 => 27,
        Key::F2 => 28,
        Key::F20 => 29,
        Key::Home => 30,
        Key::LeftArrow => 31,
        Key::MetaLeft => 32,
        Key::MetaRight => 33,
        Key::PageDown => 34,
        Key::PageUp => 35,
        Key::Return => 36,
        Key::ShiftLeft => 37,
        Key::ShiftRight => 38,
        Key::Space => 39,
        Key::Tab => 40,
        Key::UpArrow => 41,
        Key::PrintScreen => 42,
        Key::ScrollLock => 43,
        Key::Pause => 44,
        Key::NumLock => 45,
        Key::BackQuote => 46,
        Key::Num1 => 47,
        Key::Num2 => 48,
        Key::Num3 => 49,
        Key::Num4 => 50,
        Key::Num5 => 51,
        Key::Num6 => 52,
        Key::Num7 => 53,
        Key::Num8 => 54,
        Key::Num9 => 55,
        Key::Num0 => 56,
        Key::Minus => 57,
        Key::Equal => 58,
        Key::KeyQ => 59,
        Key::KeyW => 60,
        Key::KeyE => 61,
        Key::KeyR => 62,
        Key::KeyT => 63,
        Key::KeyY => 64,
        Key::KeyU => 65,
        Key::KeyI => 66,
        Key::KeyO => 67,
        Key::KeyP => 68,
        Key::LeftBracket => 69,
        Key::RightBracket => 70,
        Key::KeyA => 71,
        Key::KeyS => 72,
        Key::KeyD => 73,
        Key::KeyF => 74,
        Key::KeyG => 75,
        Key::KeyH => 76,
        Key::KeyJ => 77,
        Key::KeyK => 78,
        Key::KeyL => 79,
        Key::SemiColon => 80,
        Key::Quote => 81,
        Key::BackSlash => 82,
        Key::IntlBackslash => 83,
        Key::KeyZ => 84,
        Key::KeyX => 85,
        Key::KeyC => 86,
        Key::KeyV => 87,
        Key::KeyB => 88,
        Key::KeyN => 89,
        Key::KeyM => 90,
        Key::Comma => 91,
        Key::Dot => 92,
        Key::Slash => 93,
        Key::Insert => 94,
        Key::KpReturn => 95,
        Key::KpMinus => 96,
        Key::KpPlus => 97,
        Key::KpMultiply => 98,
        Key::KpDivide => 99,
        Key::KpDecimal => 100,
        Key::Kp0 => 101,
        Key::Kp1 => 102,
        Key::Kp2 => 103,
        Key::Kp3 => 104,
        Key::Kp4 => 105,
        Key::Kp5 => 106,
        Key::Kp6 => 107,
        Key::Kp7 => 108,
        Key::Kp8 => 109,
        Key::Kp9 => 110,
        Key::Function => 111,
        Key::Help => 112,
        Key::RightArrow => 113,
        Key::VolumeDown => 115,
        Key::VolumeUp => 116,
        Key::VolumeMute => 117,
        Key::Apps => 118,
        _ => -1,
    }
}

/// Looks up the native key at a key position. A position that the local platform has no key for gives `None`.
pub fn convert_phys_to_key(from: &PhysKeyCode) -> (to: Option<Key>)
    ensures
        to == phys_to_key(*from),
{
    match from {
        PhysKeyCode::AltLeft => Some(Key::Alt),
        PhysKeyCode::AltRight => Some(Key::AltGr),
        PhysKeyCode::ControlLeft => Some(Key::ControlLeft),
        PhysKeyCode::ControlRight => Some(Key::ControlRight),
        PhysKeyCode::Backspace => Some(Key::Backspace),
        PhysKeyCode::CapsLock => Some(Key::CapsLock),
        PhysKeyCode::Delete => Some(Key::Delete),
        PhysKeyCode::DownArrow => Some(Key::Delete),
        PhysKeyCode::End => Some(Key::End),
        PhysKeyCode::Escape => Some(Key::Escape),
        PhysKeyCode::F1 => Some(Key::F1),
        PhysKeyCode::F3 => Some(Key::F3),
        PhysKeyCode::F4 => Some(Key::F4),
        PhysKeyCode::F5 => Some(Key::F5),
        PhysKeyCode::F6 => Some(Key::F6),
        PhysKeyCode::F7 => Some(Key::F7),
        PhysKeyCode::F8 => Some(Key::F8),
        PhysKeyCode::F9 => Some(Key::F9),
        PhysKeyCode::F10 => Some(Key::F10),
        PhysKeyCode::F11 => Some(Key::F11),
        PhysKeyCode::F12 => Some(Key::F12),
        PhysKeyCode::F13 => Some(Key::F13),
        PhysKeyCode::F14 => Some(Key::F14),
        PhysKeyCode::F15 => Some(Key::F15),
        PhysKeyCode::F16 => Some(Key::F16),
        PhysKeyCode::F17 => Some(Key::F17),
        PhysKeyCode::F18 => Some(Key::F18),
        PhysKeyCode::F19 => Some(Key::F19),
        PhysKeyCode::F2 => Some(Key::F2),
        PhysKeyCode::F20 => Some(Key::F20),
        PhysKeyCode::Home => Some(Key::Home),
        PhysKeyCode::LeftArrow => Some(Key::LeftArrow),
        PhysKeyCode::MetaLeft => Some(Key::MetaLeft),
        PhysKeyCode::MetaRight => Some(Key::MetaRight),
        PhysKeyCode::PageDown => Some(Key::PageDown),
        PhysKeyCode::PageUp => Some(Key::PageUp),
        PhysKeyCode::Return => Some(Key::Return),
        PhysKeyCode::ShiftLeft => Some(Key::ShiftLeft),
        PhysKeyCode::ShiftRight => Some(Key::ShiftRight),
        PhysKeyCode::Space => Some(Key::Space),
        PhysKeyCode::Tab => Some(Key::Tab),
        PhysKeyCode::UpArrow => Some(Key::UpArrow),
        PhysKeyCode::PrintScreen => Some(Key::PrintScreen),
        PhysKeyCode::ScrollLock => Some(Key::ScrollLock),
        PhysKeyCode::Pause => Some(Key::Pause),
        PhysKeyCode::NumLock => Some(Key::NumLock),
        PhysKeyCode::BackQuote => Some(Key::BackQuote),
        PhysKeyCode::Num1 => Some(Key::Num1),
        PhysKeyCode::Num2 => Some(Key::Num2),
        PhysKeyCode::Num3 => Some(Key::Num3),
        PhysKeyCode::Num4 => Some(Key::Num4),
        PhysKeyCode::Num5 => Some(Key::Num5),
        PhysKeyCode::Num6 => Some(Key::Num6),
        PhysKeyCode::Num7 => Some(Key::Num7),
        PhysKeyCode::Num8 => Some(Key::Num8),
        PhysKeyCode::Num9 => Some(Key::Num9),
        PhysKeyCode::Num0 => Some(Key::Num0),
        PhysKeyCode::Minus => Some(Key::Minus),
        PhysKeyCode::Equal => Some(Key::Equal),
        PhysKeyCode::KeyQ => Some(Key::KeyQ),
        PhysKeyCode::KeyW => Some(Key::KeyW),
        PhysKeyCode::KeyE => Some(Key::KeyE),
        PhysKeyCode::KeyR => Some(Key::KeyR),
        PhysKeyCode::KeyT => Some(Key::KeyT),
        PhysKeyCode::KeyY => Some(Key::KeyY),
        PhysKeyCode::KeyU => Some(Key::KeyU),
        PhysKeyCode::KeyI => Some(Key::KeyI),
        PhysKeyCode::KeyO => Some(Key::KeyO),
        PhysKeyCode::KeyP => Some(Key::KeyP),
        PhysKeyCode::LeftBracket => Some(Key::LeftBracket),
        PhysKeyCode::RightBracket => Some(Key::RightBracket),
        PhysKeyCode::KeyA => Some(Key::KeyA),
        PhysKeyCode::KeyS => Some(Key::KeyS),
        PhysKeyCode::KeyD => Some(Key::KeyD),
        PhysKeyCode::KeyF => Some(Key::KeyF),
        PhysKeyCode::KeyG => Some(Key::KeyG),
        PhysKeyCode::KeyH => Some(Key::KeyH),
        PhysKeyCode::KeyJ => Some(Key::KeyJ),
        PhysKeyCode::KeyK => Some(Key::KeyK),
        PhysKeyCode::KeyL => Some(Key::KeyL),
        PhysKeyCode::SemiColon => Some(Key::SemiColon),
        PhysKeyCode::Quote => Some(Key::Quote),
        PhysKeyCode::BackSlash => Some(Key::BackSlash),
        PhysKeyCode::IntlBackslash => Some(Key::IntlBackslash),
        PhysKeyCode::KeyZ => Some(Key::KeyZ),
        PhysKeyCode::KeyX => Some(Key::KeyX),
        PhysKeyCode::KeyC => Some(Key::KeyC),
        PhysKeyCode::KeyV => Some(Key::KeyV),
        PhysKeyCode::KeyB => Some(Key::KeyB),
        PhysKeyCode::KeyN => Some(Key::KeyN),
        PhysKeyCode::KeyM => Some(Key::KeyM),
        PhysKeyCode::Comma => Some(Key::Comma),
        PhysKeyCode::Dot => Some(Key::Dot),
        PhysKeyCode::Slash => Some(Key::Slash),
        PhysKeyCode::Insert => Some(Key::Insert),
        PhysKeyCode::KpReturn => Some(Key::KpReturn),
        PhysKeyCode::KpMinus => Some(Key::KpMinus),
        PhysKeyCode::KpPlus => Some(Key::KpPlus),
        PhysKeyCode::KpMultiply => Some(Key::KpMultiply),
        PhysKeyCode::KpDivide => Some(Key::KpDivide),
        PhysKeyCode::KpDecimal => Some(Key::KpDecimal),
        PhysKeyCode::Kp0 => Some(Key::Kp0),
        PhysKeyCode::Kp1 => Some(Key::Kp1),
        PhysKeyCode::Kp2 => Some(Key::Kp2),
        PhysKeyCode::Kp3 => Some(Key::Kp3),
        PhysKeyCode::Kp4 => Some(Key::Kp4),
        PhysKeyCode::Kp5 => Some(Key::Kp5),
        PhysKeyCode::Kp6 => Some(Key::Kp6),
        PhysKeyCode::Kp7 => Some(Key::Kp7),
        PhysKeyCode::Kp8 => Some(Key::Kp8),
        PhysKeyCode::Kp9 => Some(Key::Kp9),
        PhysKeyCode::Function => Some(Key::Function),
        PhysKeyCode::Help => Some(Key::Help),
        PhysKeyCode::RightArrow => Some(Key::RightArrow),
        PhysKeyCode::KpDelete => Some(Key::Delete),
        PhysKeyCode::VolumeDown => Some(Key::VolumeDown),
        PhysKeyCode::VolumeUp => Some(Key::VolumeUp),
        PhysKeyCode::VolumeMute => Some(Key::VolumeMute),
        PhysKeyCode::Menu => Some(Key::Apps),
    }
}

/// Looks up the position of a native key. A key that has no position gives `None`.
pub fn convert_key_to_phys(from: &Key) -> (to: Option<PhysKeyCode>)
    ensures
        to == key_to_phys(*from),
{
    match from {
        Key::Alt => Some(PhysKeyCode::AltLeft),
        Key::AltGr => Some(PhysKeyCode::AltRight),
        Key::ControlLeft => Some(PhysKeyCode::ControlLeft),
        Key::ControlRight => Some(PhysKeyCode::ControlRight),
        Key::Backspace => Some(PhysKeyCode::Backspace),
        Key::CapsLock => Some(PhysKeyCode::CapsLock),
        Key::Delete => Some(PhysKeyCode::KpDelete),
        Key::End => Some(PhysKeyCode::End),
        Key::Escape => Some(PhysKeyCode::Escape),
        Key::F1 => Some(PhysKeyCode::F1),
        Key::F3 => Some(PhysKeyCode::F3),
        Key::F4 => Some(PhysKeyCode::F4),
        Key::F5 => Some(PhysKeyCode::F5),
        Key::F6 => Some(PhysKeyCode::F6),
        Key::F7 => Some(PhysKeyCode::F7),
        Key::F8 => Some(PhysKeyCode::F8),
        Key::F9 => Some(PhysKeyCode::F9),
        Key::F10 => Some(PhysKeyCode::F10),
        Key::F11 => Some(PhysKeyCode::F11),
        Key::F12 => Some(PhysKeyCode::F12),
        Key::F13 => Some(PhysKeyCode::F13),
        Key::F14 => Some(PhysKeyCode::F14),
        Key::F15 => Some(PhysKeyCode::F15),
        Key::F16 => Some(PhysKeyCode::F16),
        Key::F17 => Some(PhysKeyCode::F17),
        Key::F18 => Some(PhysKeyCode::F18),
        Key::F19 => Some(PhysKeyCode::F19),
        Key::F2 => Some(PhysKeyCode::F2),
        Key::F20 => Some(PhysKeyCode::F20),
        Key::Home => Some(PhysKeyCode::Home),
        Key::LeftArrow => Some(PhysKeyCode::LeftArrow),
        Key::MetaLeft => Some(PhysKeyCode::MetaLeft),
        Key::MetaRight => Some(PhysKeyCode::MetaRight),
        Key::PageDown => Some(PhysKeyCode::PageDown),
        Key::PageUp => Some(PhysKeyCode::PageUp),
        Key::Return => Some(PhysKeyCode::Return),
        Key::ShiftLeft => Some(PhysKeyCode::ShiftLeft),
        Key::ShiftRight => Some(PhysKeyCode::ShiftRight),
        Key::Space => Some(PhysKeyCode::Space),
        Key::Tab => Some(PhysKeyCode::Tab),
        Key::UpArrow => Some(PhysKeyCode::UpArrow),
        Key::PrintScreen => Some(PhysKeyCode::PrintScreen),
        Key::ScrollLock => Some(PhysKeyCode::ScrollLock),
        Key::Pause => Some(PhysKeyCode::Pause),
        Key::NumLock => Some(PhysKeyCode::NumLock),
        Key::BackQuote => Some(PhysKeyCode::BackQuote),
        Key::Num1 => Some(PhysKeyCode::Num1),
        Key::Num2 => Some(PhysKeyCode::Num2),
        Key::Num3 => Some(PhysKeyCode::Num3),
        Key::Num4 => Some(PhysKeyCode::Num4),
        Key::Num5 => Some(PhysKeyCode::Num5),
        Key::Num6 => Some(PhysKeyCode::Num6),
        Key::Num7 => Some(PhysKeyCode::Num7),
        Key::Num8 => Some(PhysKeyCode::Num8),
        Key::Num9 => Some(PhysKeyCode::Num9),
        Key::Num0 => Some(PhysKeyCode::Num0),
        Key::Minus => Some(PhysKeyCode::Minus),
        Key::Equal => Some(PhysKeyCode::Equal),
        Key::KeyQ => Some(PhysKeyCode::KeyQ),
        Key::KeyW => Some(PhysKeyCode::KeyW),
        Key::KeyE => Some(PhysKeyCode::KeyE),
        Key::KeyR => Some(PhysKeyCode::KeyR),
        Key::KeyT => Some(PhysKeyCode::KeyT),
        Key::KeyY => Some(PhysKeyCode::KeyY),
        Key::KeyU => Some(PhysKeyCode::KeyU),
        Key::KeyI => Some(PhysKeyCode::KeyI),
        Key::KeyO => Some(PhysKeyCode::KeyO),
        Key::KeyP => Some(PhysKeyCode::KeyP),
        Key::LeftBracket => Some(PhysKeyCode::LeftBracket),
        Key::RightBracket => Some(PhysKeyCode::RightBracket),
        Key::KeyA => Some(PhysKeyCode::KeyA),
        Key::KeyS => Some(PhysKeyCode::KeyS),
        Key::KeyD => Some(PhysKeyCode::KeyD),
        Key::KeyF => Some(PhysKeyCode::KeyF),
        Key::KeyG => Some(PhysKeyCode::KeyG),
        Key::KeyH => Some(PhysKeyCode::KeyH),
        Key::KeyJ => Some(PhysKeyCode::KeyJ),
        Key::KeyK => Some(PhysKeyCode::KeyK),
        Key::KeyL => Some(PhysKeyCode::KeyL),
        Key::SemiColon => Some(PhysKeyCode::SemiColon),
        Key::Quote => Some(PhysKeyCode::Quote),
        Key::BackSlash => Some(PhysKeyCode::BackSlash),
        Key::IntlBackslash => Some(PhysKeyCode::IntlBackslash),
        Key::KeyZ => Some(PhysKeyCode::KeyZ),
        Key::KeyX => Some(PhysKeyCode::KeyX),
        Key::KeyC => Some(PhysKeyCode::KeyC),
        Key::KeyV => Some(PhysKeyCode::KeyV),
        Key::KeyB => Some(PhysKeyCode::KeyB),
        Key::KeyN => Some(PhysKeyCode::KeyN),
        Key::KeyM => Some(PhysKeyCode::KeyM),
        Key::Comma => Some(PhysKeyCode::Comma),
        Key::Dot => Some(PhysKeyCode::Dot),
        Key::Slash => Some(PhysKeyCode::Slash),
        Key::Insert => Some(PhysKeyCode::Insert),
        Key::KpReturn => Some(PhysKeyCode::KpReturn),
        Key::KpMinus => Some(PhysKeyCode::KpMinus),
        Key::KpPlus => Some(PhysKeyCode::KpPlus),
        Key::KpMultiply => Some(PhysKeyCode::KpMultiply),
        Key::KpDivide => Some(PhysKeyCode::KpDivide),
        Key::KpDecimal => Some(PhysKeyCode::KpDecimal),
        Key::Kp0 => Some(PhysKeyCode::Kp0),
        Key::Kp1 => Some(PhysKeyCode::Kp1),
        Key::Kp2 => Some(PhysKeyCode::Kp2),
        Key::Kp3 => Some(PhysKeyCode::Kp3),
        Key::Kp4 => Some(PhysKeyCode::Kp4),
        Key::Kp5 => Some(PhysKeyCode::Kp5),
        Key::Kp6 => Some(PhysKeyCode::Kp6),
        Key::Kp7 => Some(PhysKeyCode::Kp7),
        Key::Kp8 => Some(PhysKeyCode::Kp8),
        Key::Kp9 => Some(PhysKeyCode::Kp9),
        Key::Function => Some(PhysKeyCode::Function),
        Key::Help => Some(PhysKeyCode::Help),
        Key::RightArrow => Some(PhysKeyCode::RightArrow),
        Key::VolumeDown => Some(PhysKeyCode::VolumeDown),
        Key::VolumeUp => Some(PhysKeyCode::VolumeUp),
        Key::VolumeMute => Some(PhysKeyCode::VolumeMute),
        Key::Apps => Some(PhysKeyCode::Menu),
        _ => None,
    }
}

/// Looks up the native key of a logical key. A logical key that the local platform has no key for gives `None`.
pub fn convert_control_key_to_key(from: &ControlKey) -> (to: Option<Key>)
    ensures
        to == control_to_key(*from),
{
    match from {
        ControlKey::Alt => Some(Key::Alt),
        ControlKey::RAlt => Some(Key::AltGr),
        ControlKey::Backspace => Some(Key::Backspace),
        ControlKey::Control => Some(Key::ControlLeft),
        ControlKey::RControl => Some(Key::ControlRight),
        ControlKey::DownArrow => Some(Key::DownArrow),
        ControlKey::Escape => Some(Key::Escape),
        ControlKey::F1 => Some(Key::F1),
        ControlKey::F10 => Some(Key::F10),
        ControlKey::F11 => Some(Key::F11),
        ControlKey::F12 => Some(Key::F12),
        ControlKey::F2 => Some(Key::F2),
        ControlKey::F3 => Some(Key::F3),
        ControlKey::F4 => Some(Key::F4),
        ControlKey::F5 => Some(Key::F5),
        ControlKey::F6 => Some(Key::F6),
        ControlKey::F7 => Some(Key::F7),
        ControlKey::F8 => Some(Key::F8),
        ControlKey::F9 => Some(Key::F9),
        ControlKey::LeftArrow => Some(Key::LeftArrow),
        ControlKey::Meta => Some(Key::MetaLeft),
        ControlKey::RWin => Some(Key::MetaRight),
        ControlKey::Return => Some(Key::Return),
        ControlKey::RightArrow => Some(Key::RightArrow),
        ControlKey::Shift => Some(Key::ShiftLeft),
        ControlKey::RShift => Some(Key::ShiftRight),
        ControlKey::Space => Some(Key::Space),
        ControlKey::Tab => Some(Key::Tab),
        ControlKey::UpArrow => Some(Key::UpArrow),
        ControlKey::Delete => Some(Key::Delete),
        ControlKey::Apps => Some(Key::Apps),
        ControlKey::Cancel => Some(Key::Cancel),
        ControlKey::Clear => Some(Key::Clear),
        ControlKey::Kana => Some(Key::Kana),
        ControlKey::Hangul => Some(Key::Hangul),
        ControlKey::Junja => Some(Key::Junja),
        ControlKey::Final => Some(Key::Final),
        ControlKey::Hanja => Some(Key::Hanji),
        ControlKey::Convert => Some(Key::Convert),
        ControlKey::Print => Some(Key::Print),
        ControlKey::Select => Some(Key::Select),
        ControlKey::Execute => Some(Key::Execute),
        ControlKey::Snapshot => Some(Key::PrintScreen),
        ControlKey::Help => Some(Key::Help),
        ControlKey::Sleep => Some(Key::Sleep),
        ControlKey::Separator => Some(Key::Separator),
        ControlKey::NumpadEnter => Some(Key::KpReturn),
        ControlKey::Numpad0 => Some(Key::Kp0),
        ControlKey::Numpad1 => Some(Key::Kp1),
        ControlKey::Numpad2 => Some(Key::Kp2),
        ControlKey::Numpad3 => Some(Key::Kp3),
        ControlKey::Numpad4 => Some(Key::Kp4),
        ControlKey::Numpad5 => Some(Key::Kp5),
        ControlKey::Numpad6 => Some(Key::Kp6),
        ControlKey::Numpad7 => Some(Key::Kp7),
        ControlKey::Numpad8 => Some(Key::Kp8),
        ControlKey::Numpad9 => Some(Key::Kp9),
        ControlKey::Divide => Some(Key::KpDivide),
        ControlKey::Multiply => Some(Key::KpMultiply),
        ControlKey::Decimal => Some(Key::KpDecimal),
        ControlKey::Subtract => Some(Key::KpMinus),
        ControlKey::Add => Some(Key::KpPlus),
        ControlKey::CapsLock => Some(Key::CapsLock),
        ControlKey::NumLock => Some(Key::NumLock),
        ControlKey::Scroll => Some(Key::ScrollLock),
        ControlKey::Home => Some(Key::Home),
        ControlKey::End => Some(Key::End),
        ControlKey::Insert => Some(Key::Insert),
        ControlKey::PageUp => Some(Key::PageUp),
        ControlKey::PageDown => Some(Key::PageDown),
        ControlKey::Pause => Some(Key::Pause),
        _ => None,
    }
}

/// Looks up the logical key of a native key. A key that has no logical name gives `None`.
pub fn convert_key_to_control_key(from: &Key) -> (to: Option<ControlKey>)
    ensures
        to == key_to_control(*from),
{
    match from {
        Key::Alt => Some(ControlKey::Alt),
        Key::AltGr => Some(ControlKey::RAlt),
        Key::Backspace => Some(ControlKey::Backspace),
        Key::ControlLeft => Some(ControlKey::Control),
        Key::ControlRight => Some(ControlKey::RControl),
        Key::DownArrow => Some(ControlKey::DownArrow),
        Key::Escape => Some(ControlKey::Escape),
        Key::F1 => Some(ControlKey::F1),
        Key::F10 => Some(ControlKey::F10),
        Key::F11 => Some(ControlKey::F11),
        Key::F12 => Some(ControlKey::F12),
        Key::F2 => Some(ControlKey::F2),
        Key::F3 => Some(ControlKey::F3),
        Key::F4 => Some(ControlKey::F4),
        Key::F5 => Some(ControlKey::F5),
        Key::F6 => Some(ControlKey::F6),
        Key::F7 => Some(ControlKey::F7),
        Key::F8 => Some(ControlKey::F8),
        Key::F9 => Some(ControlKey::F9),
        Key::LeftArrow => Some(ControlKey::LeftArrow),
        Key::MetaLeft => Some(ControlKey::Meta),
        Key::MetaRight => Some(ControlKey::RWin),
        Key::Return => Some(ControlKey::Return),
        Key::RightArrow => Some(ControlKey::RightArrow),
        Key::ShiftLeft => Some(ControlKey::Shift),
        Key::ShiftRight => Some(ControlKey::RShift),
        Key::Space => Some(ControlKey::Space),
        Key::Tab => Some(ControlKey::Tab),
        Key::UpArrow => Some(ControlKey::UpArrow),
        Key::Delete => Some(ControlKey::Delete),
        Key::Apps => Some(ControlKey::Apps),
        Key::Cancel => Some(ControlKey::Cancel),
        Key::Clear => Some(ControlKey::Clear),
        Key::Kana => Some(ControlKey::Kana),
        Key::Hangul => Some(ControlKey::Hangul),
        Key::Junja => Some(ControlKey::Junja),
        Key::Final => Some(ControlKey::Final),
        Key::Hanja => Some(ControlKey::Hanja),
        Key::Hanji => Some(ControlKey::Hanja),
        Key::Convert => Some(ControlKey::Convert),
        Key::Print => Some(ControlKey::Print),
        Key::Select => Some(ControlKey::Select),
        Key::Execute => Some(ControlKey::Execute),
        Key::PrintScreen => Some(ControlKey::Snapshot),
        Key::Help => Some(ControlKey::Help),
        Key::Sleep => Some(ControlKey::Sleep),
        Key::Separator => Some(ControlKey::Separator),
        Key::KpReturn => Some(ControlKey::NumpadEnter),
        Key::Kp0 => Some(ControlKey::Numpad0),
        Key::Kp1 => Some(ControlKey::Numpad1),
        Key::Kp2 => Some(ControlKey::Numpad2),
        Key::Kp3 => Some(ControlKey::Numpad3),
        Key::Kp4 => Some(ControlKey::Numpad4),
        Key::Kp5 => Some(ControlKey::Numpad5),
        Key::Kp6 => Some(ControlKey::Numpad6),
        Key::Kp7 => Some(ControlKey::Numpad7),
        Key::Kp8 => Some(ControlKey::Numpad8),
        Key::Kp9 => Some(ControlKey::Numpad9),
        Key::KpDivide => Some(ControlKey::Divide),
        Key::KpMultiply => Some(ControlKey::Multiply),
        Key::KpDecimal => Some(ControlKey::Decimal),
        Key::KpMinus => Some(ControlKey::Subtract),
        Key::KpPlus => Some(ControlKey::Add),
        Key::CapsLock => Some(ControlKey::CapsLock),
        Key::NumLock => Some(ControlKey::NumLock),
        Key::ScrollLock => Some(ControlKey::Scroll),
        Key::Home => Some(ControlKey::Home),
        Key::End => Some(ControlKey::End),
        Key::Insert => Some(ControlKey::Insert),
        Key::PageUp => Some(ControlKey::PageUp),
        Key::PageDown => Some(ControlKey::PageDown),
        Key::Pause => Some(ControlKey::Pause),
        _ => None,
    }
}

/// The translations of a native key: to its position, to its logical key,
/// and to the key that takes its place when control and meta are swapped.
pub trait KeyConvert: Sized {
    /// Exchanges control and meta on each side of the keyboard.
    fn swap_modifier(self) -> Key;

    /// The native key at a key position.
    fn from_phys(phys: &PhysKeyCode) -> Result<Key, KeyboardError>;

    /// The position of the key.
    fn to_phys(&self) -> Result<PhysKeyCode, KeyboardError>;

    /// The logical key of the key.
    fn to_control_key(&self) -> Result<ControlKey, KeyboardError>;
}

impl KeyConvert for Key {
    /// Exchanges control and meta on each side of the keyboard. Every other
    /// key is returned as it is.
    fn swap_modifier(self) -> (swapped: Key)
        ensures
            swapped == self.spec_swap_modifier(),
    {
        match self {
            Key::ControlLeft => Key::MetaLeft,
            Key::MetaLeft => Key::ControlLeft,
            Key::ControlRight => Key::MetaRight,
            Key::MetaRight => Key::ControlRight,
            _ => self,
        }
    }

    /// The native key at a key position, or the error that says there is
    /// none.
    fn from_phys(phys: &PhysKeyCode) -> (key: Result<Key, KeyboardError>)
        ensures
            phys_to_key(*phys) matches Some(k) ==> key == Ok::<Key, KeyboardError>(k),
            phys_to_key(*phys) is None ==> key == Err::<Key, KeyboardError>(
                KeyboardError::UnmappableKey,
            ),
    {
        match convert_phys_to_key(phys) {
            Some(key) => Ok(key),
            None => Err(KeyboardError::UnmappableKey),
        }
    }

    /// The position of this key, or the error that says it has none.
    fn to_phys(&self) -> (phys: Result<PhysKeyCode, KeyboardError>)
        ensures
            key_to_phys(*self) matches Some(p) ==> phys == Ok::<PhysKeyCode, KeyboardError>(p),
            key_to_phys(*self) is None ==> phys == Err::<PhysKeyCode, KeyboardError>(
                KeyboardError::UnmappableKey,
            ),
    {
        match convert_key_to_phys(self) {
            Some(phys) => Ok(phys),
            None => Err(KeyboardError::UnmappableKey),
        }
    }

    /// The logical key of this key, or the error that says it has none.
    fn to_control_key(&self) -> (control_key: Result<ControlKey, KeyboardError>)
        ensures
            key_to_control(*self) matches Some(c) ==> control_key == Ok::<
                ControlKey,
                KeyboardError,
            >(c),
            key_to_control(*self) is None ==> control_key == Err::<ControlKey, KeyboardError>(
                KeyboardError::UnmappableKey,
            ),
    {
        match convert_key_to_control_key(self) {
            Some(control_key) => Ok(control_key),
            None => Err(KeyboardError::UnmappableKey),
        }
    }
}

/// A map made from a list of pairs, in one of its two directions.
pub enum MapType<K, V> {
    /// From the left side of each pair to its right side.
    Forward(HashMap<K, V>),
    /// From the right side of each pair to its left side.
    Reverse(HashMap<V, K>),
}

/// Whether `map` is what a list of pairs gives from left to right: it
/// holds every left side of the list, each with the right side of the last
/// pair that has it.
pub open spec fn is_forward_map<K, V>(map: Map<K, V>, pairs: Seq<(K, V)>) -> bool {
    &&& forall|index: int|
        0 <= index < pairs.len() ==> map.contains_key((#[trigger] pairs[index]).0)
    &&& forall|left: K| #[trigger]
        map.contains_key(left) ==> exists|index: int| #[trigger]
            is_last_left(pairs, index, left) && map[left] == pairs[index].1
}

/// Whether `map` is what a list of pairs gives from right to left: it
/// holds every right side of the list, each with the left side of the last
/// pair that has it.
pub open spec fn is_reverse_map<K, V>(map: Map<V, K>, pairs: Seq<(K, V)>) -> bool {
    &&& forall|index: int|
        0 <= index < pairs.len() ==> map.contains_key((#[trigger] pairs[index]).1)
    &&& forall|right: V| #[trigger]
        map.contains_key(right) ==> exists|index: int| #[trigger]
            is_last_right(pairs, index, right) && map[right] == pairs[index].0
}

/// Makes the map from left to right of a list of pairs.
fn build_forward<K: Eq + Hash + Copy, V: Copy>(key_values: &[(K, V)]) -> (map: HashMap<K, V>)
    requires
        obeys_key_model::<K>(),
    ensures
        is_forward_map(map@, key_values@),
{
    let mut map: HashMap<K, V> = HashMap::new();
    let count: usize = key_values.len();
    let mut done: usize = 0;
    while done < count
        invariant
            done <= count,
            count == key_values@.len(),
            obeys_key_model::<K>(),
            is_forward_map(map@, key_values@.subrange(0, done as int)),
        decreases count - done,
    {
        let ghost before = map@;
        let ghost seen = key_values@.subrange(0, done as int);
        let ghost next = key_values@.subrange(0, done + 1);
        let pair: (K, V) = key_values[done];
        map.insert(pair.0, pair.1);
        proof {
            assert(next.len() == done + 1);
            assert(next[done as int] == pair);
            assert forall|index: int| 0 <= index < next.len() implies map@.contains_key(
                (#[trigger] next[index]).0,
            ) by {
                if index < done {
                    assert(seen[index] == next[index]);
                    assert(before.contains_key(seen[index].0));
                }
            }
            assert forall|left: K| #[trigger] map@.contains_key(left) implies exists|index: int| #[trigger]
                is_last_left(next, index, left) && map@[left] == next[index].1 by {
                if left == pair.0 {
                    assert(is_last_left(next, done as int, left));
                } else {
                    assert(before.contains_key(left));
                    let index = choose|index: int| #[trigger]
                        is_last_left(seen, index, left) && before[left] == seen[index].1;
                    assert(seen[index] == next[index]);
                    assert forall|later: int| index < later < next.len() implies (#[trigger] next[later]).0
                        != left by {
                        if later < done {
                            assert(seen[later] == next[later]);
                        }
                    }
                    assert(is_last_left(next, index, left));
                }
            }
        }
        done += 1;
    }
    assert(key_values@.subrange(0, count as int) =~= key_values@);
    map
}

/// Makes the map from right to left of a list of pairs.
fn build_reverse<K: Copy, V: Eq + Hash + Copy>(key_values: &[(K, V)]) -> (map: HashMap<V, K>)
    requires
        obeys_key_model::<V>(),
    ensures
        is_reverse_map(map@, key_values@),
{
    let mut map: HashMap<V, K> = HashMap::new();
    let count: usize = key_values.len();
    let mut done: usize = 0;
    while done < count
        invariant
            done <= count,
            count == key_values@.len(),
            obeys_key_model::<V>(),
            is_reverse_map(map@, key_values@.subrange(0, done as int)),
        decreases count - done,
    {
        let ghost before = map@;
        let ghost seen = key_values@.subrange(0, done as int);
        let ghost next = key_values@.subrange(0, done + 1);
        let pair: (K, V) = key_values[done];
        map.insert(pair.1, pair.0);
        proof {
            assert(next.len() == done + 1);
            assert(next[done as int] == pair);
            assert forall|index: int| 0 <= index < next.len() implies map@.contains_key(
                (#[trigger] next[index]).1,
            ) by {
                if index < done {
                    assert(seen[index] == next[index]);
                    assert(before.contains_key(seen[index].1));
                }
            }
            assert forall|right: V| #[trigger] map@.contains_key(right) implies exists|index: int| #[trigger]
                is_last_right(next, index, right) && map@[right] == next[index].0 by {
                if right == pair.1 {
                    assert(is_last_right(next, done as int, right));
                } else {
                    assert(before.contains_key(right));
                    let index = choose|index: int| #[trigger]
                        is_last_right(seen, index, right) && before[right] == seen[index].0;
                    assert(seen[index] == next[index]);
                    assert forall|later: int| index < later < next.len() implies (#[trigger] next[later]).1
                        != right by {
                        if later < done {
                            assert(seen[later] == next[later]);
                        }
                    }
                    assert(is_last_right(next, index, right));
                }
            }
        }
        done += 1;
    }
    assert(key_values@.subrange(0, count as int) =~= key_values@);
    map
}

/// Makes a map from a list of pairs, from left to right or, where
/// `reverse` is set, from right to left. Where the list names a key of the
/// map more than once, its last pair counts.
///
/// The keys of the map must be of a type whose hashing and equality agree,
/// as they do for the integer types.
pub fn build_map<K: Eq + Hash + Copy, V: Eq + Hash + Copy>(
    key_values: &[(K, V)],
    reverse: bool,
) -> (map: MapType<K, V>)
    requires
        obeys_key_model::<K>(),
        obeys_key_model::<V>(),
    ensures
        !reverse ==> (map matches MapType::Forward(forward) && is_forward_map(
            forward@,
            key_values@,
        )),
        reverse ==> (map matches MapType::Reverse(backward) && is_reverse_map(
            backward@,
            key_values@,
        )),
{
    if !reverse {
        MapType::Forward(build_forward(key_values))
    } else {
        MapType::Reverse(build_reverse(key_values))
    }
}

/// The two maps of one list never contradict it: what either of them
/// gives for a key is a pair of the list.
pub proof fn lemma_maps_share_the_list<K, V>(
    forward: Map<K, V>,
    backward: Map<V, K>,
    pairs: Seq<(K, V)>,
    left: K,
    right: V,
)
    requires
        is_forward_map(forward, pairs),
        is_reverse_map(backward, pairs),
    ensures
        forward.contains_key(left) && forward[left] == right ==> pairs.contains((left, right)),
        backward.contains_key(right) && backward[right] == left ==> pairs.contains((left, right)),
{
    if forward.contains_key(left) && forward[left] == right {
        let index = choose|index: int| #[trigger]
            is_last_left(pairs, index, left) && forward[left] == pairs[index].1;
        assert(pairs[index] == (left, right));
    }
    if backward.contains_key(right) && backward[right] == left {
        let index = choose|index: int| #[trigger]
            is_last_right(pairs, index, right) && backward[right] == pairs[index].0;
        assert(pairs[index] == (left, right));
    }
}

/// The four lookups are the maps of the two lists: a map that is made
/// from a list, in either direction, holds for each key what the lookup
/// in that direction gives, and nothing where the lookup gives nothing.
pub proof fn lemma_lookups_are_the_maps(
    phys_forward: Map<PhysKeyCode, Key>,
    phys_backward: Map<Key, PhysKeyCode>,
    control_forward: Map<ControlKey, Key>,
    control_backward: Map<Key, ControlKey>,
    phys: PhysKeyCode,
    control_key: ControlKey,
    key: Key,
)
    requires
        is_forward_map(phys_forward, phys_key_table()),
        is_reverse_map(phys_backward, phys_key_table()),
        is_forward_map(control_forward, control_key_table()),
        is_reverse_map(control_backward, control_key_table()),
    ensures
        phys_to_key(phys) == if phys_forward.contains_key(phys) {
            Some(phys_forward[phys])
        } else {
            None
        },
        key_to_phys(key) == if phys_backward.contains_key(key) {
            Some(phys_backward[key])
        } else {
            None
        },
        control_to_key(control_key) == if control_forward.contains_key(control_key) {
            Some(control_forward[control_key])
        } else {
            None
        },
        key_to_control(key) == if control_backward.contains_key(key) {
            Some(control_backward[key])
        } else {
            None
        },
{
    lemma_phys_to_key_reads_list(phys);
    lemma_key_to_phys_reads_list(key);
    lemma_control_to_key_reads_list(control_key);
    lemma_key_to_control_reads_list(key);
    if phys_forward.contains_key(phys) {
        let index = choose|index: int| #[trigger]
            is_last_left(phys_key_table(), index, phys) && phys_forward[phys]
                == phys_key_table()[index].1;
        assert(phys_key_table()[index].0 == phys);
        assert(index == phys_pair_index(phys));
    } else if phys_to_key(phys) is Some {
        assert(phys_forward.contains_key(phys_key_table()[phys_pair_index(phys)].0));
    }
    if phys_backward.contains_key(key) {
        let index = choose|index: int| #[trigger]
            is_last_right(phys_key_table(), index, key) && phys_backward[key]
                == phys_key_table()[index].0;
        assert(phys_key_table()[index].1 == key);
        assert(index == key_phys_pair_index(key));
    } else if key_to_phys(key) is Some {
        assert(phys_backward.contains_key(phys_key_table()[key_phys_pair_index(key)].1));
    }
    if control_forward.contains_key(control_key) {
        let index = choose|index: int| #[trigger]
            is_last_left(control_key_table(), index, control_key) && control_forward[control_key]
                == control_key_table()[index].1;
        assert(control_key_table()[index].0 == control_key);
        assert(index == control_pair_index(control_key));
    } else if control_to_key(control_key) is Some {
        assert(control_forward.contains_key(
            control_key_table()[control_pair_index(control_key)].0,
        ));
    }
    if control_backward.contains_key(key) {
        let index = choose|index: int| #[trigger]
            is_last_right(control_key_table(), index, key) && control_backward[key]
                == control_key_table()[index].0;
        assert(control_key_table()[index].1 == key);
        assert(index == key_control_pair_index(key));
    } else if key_to_control(key) is Some {
        assert(control_backward.contains_key(
            control_key_table()[key_control_pair_index(key)].1,
        ));
    }
}

/// The lookup of a position is read off the list of positions: it gives the
/// right side of the last pair that names the position, and nothing where no
/// pair names it.
pub proof fn lemma_phys_to_key_reads_list(phys: PhysKeyCode)
    ensures
        phys_to_key(phys) matches Some(key) ==> is_last_left(
            phys_key_table(),
            phys_pair_index(phys),
            phys,
        ) && phys_key_table()[phys_pair_index(phys)].1 == key,
        phys_to_key(phys) is None ==> no_left(phys_key_table(), phys),
{
}

/// The lookup of a native key's position is read off the same list,
/// backwards: it gives the left side of the last pair that names the key.
pub proof fn lemma_key_to_phys_reads_list(key: Key)
    ensures
        key_to_phys(key) matches Some(phys) ==> is_last_right(
            phys_key_table(),
            key_phys_pair_index(key),
            key,
        ) && phys_key_table()[key_phys_pair_index(key)].0 == phys,
        key_to_phys(key) is None ==> no_right(phys_key_table(), key),
{
}

/// The lookup of a logical key is read off the list of logical keys.
pub proof fn lemma_control_to_key_reads_list(control_key: ControlKey)
    ensures
        control_to_key(control_key) matches Some(key) ==> is_last_left(
            control_key_table(),
            control_pair_index(control_key),
            control_key,
        ) && control_key_table()[control_pair_index(control_key)].1 == key,
        control_to_key(control_key) is None ==> no_left(control_key_table(), control_key),
{
}

/// The lookup of a native key's logical key is read off the same list,
/// backwards.
pub proof fn lemma_key_to_control_reads_list(key: Key)
    ensures
        key_to_control(key) matches Some(control_key) ==> is_last_right(
            control_key_table(),
            key_control_pair_index(key),
            key,
        ) && control_key_table()[key_control_pair_index(key)].0 == control_key,
        key_to_control(key) is None ==> no_right(control_key_table(), key),
{
}

/// The two directions never contradict the list they are read from: what
/// either of them gives is a pair of the list.
pub proof fn lemma_lookups_share_the_list(phys: PhysKeyCode, control_key: ControlKey, key: Key)
    ensures
        phys_to_key(phys) == Some(key) ==> phys_key_table().contains((phys, key)),
        key_to_phys(key) == Some(phys) ==> phys_key_table().contains((phys, key)),
        control_to_key(control_key) == Some(key) ==> control_key_table().contains(
            (control_key, key),
        ),
        key_to_control(key) == Some(control_key) ==> control_key_table().contains(
            (control_key, key),
        ),
{
    lemma_phys_to_key_reads_list(phys);
    lemma_key_to_phys_reads_list(key);
    lemma_control_to_key_reads_list(control_key);
    lemma_key_to_control_reads_list(key);
}

/// A position that is found for a native key leads back to that key.
pub proof fn lemma_key_to_phys_leads_back(key: Key, phys: PhysKeyCode)
    requires
        key_to_phys(key) == Some(phys),
    ensures
        phys_to_key(phys) == Some(key),
{
}

} // verus!
