use vstd::prelude::*;
use crate::control_key::ControlKey;
use crate::event::KeyCode;
use crate::text::{chars_of, segment_equals};

verus! {

/// The key code that a key name of the user interface stands for. Letters,
/// digits and signs stand for their character, the other names for a
/// logical key.
pub open spec fn named_key_code(name: Seq<char>) -> Option<KeyCode> {
    if name == "VK_A"@ {
        Some(KeyCode::Chr('a' as u32))
    } else if name == "VK_B"@ {
        Some(KeyCode::Chr('b' as u32))
    } else if name == "VK_C"@ {
        Some(KeyCode::Chr('c' as u32))
    } else if name == "VK_D"@ {
        Some(KeyCode::Chr('d' as u32))
    } else if name == "VK_E"@ {
        Some(KeyCode::Chr('e' as u32))
    } else if name == "VK_F"@ {
        Some(KeyCode::Chr('f' as u32))
    } else if name == "VK_G"@ {
        Some(KeyCode::Chr('g' as u32))
    } else if name == "VK_H"@ {
        Some(KeyCode::Chr('h' as u32))
    } else if name == "VK_I"@ {
        Some(KeyCode::Chr('i' as u32))
    } else if name == "VK_J"@ {
        Some(KeyCode::Chr('j' as u32))
    } else if name == "VK_K"@ {
        Some(KeyCode::Chr('k' as u32))
    } else if name == "VK_L"@ {
        Some(KeyCode::Chr('l' as u32))
    } else if name == "VK_M"@ {
        Some(KeyCode::Chr('m' as u32))
    } else if name == "VK_N"@ {
        Some(KeyCode::Chr('n' as u32))
    } else if name == "VK_O"@ {
        Some(KeyCode::Chr('o' as u32))
    } else if name == "VK_P"@ {
        Some(KeyCode::Chr('p' as u32))
    } else if name == "VK_Q"@ {
        Some(KeyCode::Chr('q' as u32))
    } else if name == "VK_R"@ {
        Some(KeyCode::Chr('r' as u32))
    } else if name == "VK_S"@ {
        Some(KeyCode::Chr('s' as u32))
    } else if name == "VK_T"@ {
        Some(KeyCode::Chr('t' as u32))
    } else if name == "VK_U"@ {
        Some(KeyCode::Chr('u' as u32))
    } else if name == "VK_V"@ {
        Some(KeyCode::Chr('v' as u32))
    } else if name == "VK_W"@ {
        Some(KeyCode::Chr('w' as u32))
    } else if name == "VK_X"@ {
        Some(KeyCode::Chr('x' as u32))
    } else if name == "VK_Y"@ {
        Some(KeyCode::Chr('y' as u32))
    } else if name == "VK_Z"@ {
        Some(KeyCode::Chr('z' as u32))
    } else if name == "VK_0"@ {
        Some(KeyCode::Chr('0' as u32))
    } else if name == "VK_1"@ {
        Some(KeyCode::Chr('1' as u32))
    } else if name == "VK_2"@ {
        Some(KeyCode::Chr('2' as u32))
    } else if name == "VK_3"@ {
        Some(KeyCode::Chr('3' as u32))
    } else if name == "VK_4"@ {
        Some(KeyCode::Chr('4' as u32))
    } else if name == "VK_5"@ {
        Some(KeyCode::Chr('5' as u32))
    } else if name == "VK_6"@ {
        Some(KeyCode::Chr('6' as u32))
    } else if name == "VK_7"@ {
        Some(KeyCode::Chr('7' as u32))
    } else if name == "VK_8"@ {
        Some(KeyCode::Chr('8' as u32))
    } else if name == "VK_9"@ {
        Some(KeyCode::Chr('9' as u32))
    } else if name == "VK_COMMA"@ {
        Some(KeyCode::Chr(',' as u32))
    } else if name == "VK_SLASH"@ {
        Some(KeyCode::Chr('/' as u32))
    } else if name == "VK_SEMICOLON"@ {
        Some(KeyCode::Chr(';' as u32))
    } else if name == "VK_QUOTE"@ {
        Some(KeyCode::Chr('\'' as u32))
    } else if name == "VK_LBRACKET"@ {
        Some(KeyCode::Chr('[' as u32))
    } else if name == "VK_RBRACKET"@ {
        Some(KeyCode::Chr(']' as u32))
    } else if name == "VK_BACKSLASH"@ {
        Some(KeyCode::Chr('\\' as u32))
    } else if name == "VK_MINUS"@ {
        Some(KeyCode::Chr('-' as u32))
    } else if name == "VK_PLUS"@ {
        Some(KeyCode::Chr('=' as u32))
    } else if name == "VK_DIVIDE"@ {
        Some(KeyCode::ControlKey(ControlKey::Divide))
    } else if name == "VK_MULTIPLY"@ {
        Some(KeyCode::ControlKey(ControlKey::Multiply))
    } else if name == "VK_SUBTRACT"@ {
        Some(KeyCode::ControlKey(ControlKey::Subtract))
    } else if name == "VK_ADD"@ {
        Some(KeyCode::ControlKey(ControlKey::Add))
    } else if name == "VK_DECIMAL"@ {
        Some(KeyCode::ControlKey(ControlKey::Decimal))
    } else if name == "VK_F1"@ {
        Some(KeyCode::ControlKey(ControlKey::F1))
    } else if name == "VK_F2"@ {
        Some(KeyCode::ControlKey(ControlKey::F2))
    } else if name == "VK_F3"@ {
        Some(KeyCode::ControlKey(ControlKey::F3))
    } else if name == "VK_F4"@ {
        Some(KeyCode::ControlKey(ControlKey::F4))
    } else if name == "VK_F5"@ {
        Some(KeyCode::ControlKey(ControlKey::F5))
    } else if name == "VK_F6"@ {
        Some(KeyCode::ControlKey(ControlKey::F6))
    } else if name == "VK_F7"@ {
        Some(KeyCode::ControlKey(ControlKey::F7))
    } else if name == "VK_F8"@ {
        Some(KeyCode::ControlKey(ControlKey::F8))
    } else if name == "VK_F9"@ {
        Some(KeyCode::ControlKey(ControlKey::F9))
    } else if name == "VK_F10"@ {
        Some(KeyCode::ControlKey(ControlKey::F10))
    } else if name == "VK_F11"@ {
        Some(KeyCode::ControlKey(ControlKey::F11))
    } else if name == "VK_F12"@ {
        Some(KeyCode::ControlKey(ControlKey::F12))
    } else if name == "VK_ENTER"@ {
        Some(KeyCode::ControlKey(ControlKey::Return))
    } else if name == "VK_CANCEL"@ {
        Some(KeyCode::ControlKey(ControlKey::Cancel))
    } else if name == "VK_BACK"@ {
        Some(KeyCode::ControlKey(ControlKey::Backspace))
    } else if name == "VK_TAB"@ {
        Some(KeyCode::ControlKey(ControlKey::Tab))
    } else if name == "VK_CLEAR"@ {
        Some(KeyCode::ControlKey(ControlKey::Clear))
    } else if name == "VK_RETURN"@ {
        Some(KeyCode::ControlKey(ControlKey::Return))
    } else if name == "VK_SHIFT"@ {
        Some(KeyCode::ControlKey(ControlKey::Shift))
    } else if name == "VK_CONTROL"@ {
        Some(KeyCode::ControlKey(ControlKey::Control))
    } else if name == "VK_MENU"@ {
        Some(KeyCode::ControlKey(ControlKey::Alt))
    } else if name == "VK_PAUSE"@ {
        Some(KeyCode::ControlKey(ControlKey::Pause))
    } else if name == "VK_CAPITAL"@ {
        Some(KeyCode::ControlKey(ControlKey::CapsLock))
    } else if name == "VK_KANA"@ {
        Some(KeyCode::ControlKey(ControlKey::Kana))
    } else if name == "VK_HANGUL"@ {
        Some(KeyCode::ControlKey(ControlKey::Hangul))
    } else if name == "VK_JUNJA"@ {
        Some(KeyCode::ControlKey(ControlKey::Junja))
    } else if name == "VK_FINAL"@ {
        Some(KeyCode::ControlKey(ControlKey::Final))
    } else if name == "VK_HANJA"@ {
        Some(KeyCode::ControlKey(ControlKey::Hanja))
    } else if name == "VK_KANJI"@ {
        Some(KeyCode::ControlKey(ControlKey::Kanji))
    } else if name == "VK_ESCAPE"@ {
        Some(KeyCode::ControlKey(ControlKey::Escape))
    } else if name == "VK_CONVERT"@ {
        Some(KeyCode::ControlKey(ControlKey::Convert))
    } else if name == "VK_SPACE"@ {
        Some(KeyCode::ControlKey(ControlKey::Space))
    } else if name == "VK_PRIOR"@ {
        Some(KeyCode::ControlKey(ControlKey::PageUp))
    } else if name == "VK_NEXT"@ {
        Some(KeyCode::ControlKey(ControlKey::PageDown))
    } else if name == "VK_END"@ {
        Some(KeyCode::ControlKey(ControlKey::End))
    } else if name == "VK_HOME"@ {
        Some(KeyCode::ControlKey(ControlKey::Home))
    } else if name == "VK_LEFT"@ {
        Some(KeyCode::ControlKey(ControlKey::LeftArrow))
    } else if name == "VK_UP"@ {
        Some(KeyCode::ControlKey(ControlKey::UpArrow))
    } else if name == "VK_RIGHT"@ {
        Some(KeyCode::ControlKey(ControlKey::RightArrow))
    } else if name == "VK_DOWN"@ {
        Some(KeyCode::ControlKey(ControlKey::DownArrow))
    } else if name == "VK_SELECT"@ {
        Some(KeyCode::ControlKey(ControlKey::Select))
    } else if name == "VK_PRINT"@ {
        Some(KeyCode::ControlKey(ControlKey::Print))
    } else if name == "VK_EXECUTE"@ {
        Some(KeyCode::ControlKey(ControlKey::Execute))
    } else if name == "VK_SNAPSHOT"@ {
        Some(KeyCode::ControlKey(ControlKey::Snapshot))
    } else if name == "VK_INSERT"@ {
        Some(KeyCode::ControlKey(ControlKey::Insert))
    } else if name == "VK_DELETE"@ {
        Some(KeyCode::ControlKey(ControlKey::Delete))
    } else if name == "VK_HELP"@ {
        Some(KeyCode::ControlKey(ControlKey::Help))
    } else if name == "VK_SLEEP"@ {
        Some(KeyCode::ControlKey(ControlKey::Sleep))
    } else if name == "VK_SEPARATOR"@ {
        Some(KeyCode::ControlKey(ControlKey::Separator))
    } else if name == "VK_NUMPAD0"@ {
        Some(KeyCode::ControlKey(ControlKey::Numpad0))
    } else if name == "VK_NUMPAD1"@ {
        Some(KeyCode::ControlKey(ControlKey::Numpad1))
    } else if name == "VK_NUMPAD2"@ {
        Some(KeyCode::ControlKey(ControlKey::Numpad2))
    } else if name == "VK_NUMPAD3"@ {
        Some(KeyCode::ControlKey(ControlKey::Numpad3))
    } else if name == "VK_NUMPAD4"@ {
        Some(KeyCode::ControlKey(ControlKey::Numpad4))
    } else if name == "VK_NUMPAD5"@ {
        Some(KeyCode::ControlKey(ControlKey::Numpad5))
    } else if name == "VK_NUMPAD6"@ {
        Some(KeyCode::ControlKey(ControlKey::Numpad6))
    } else if name == "VK_NUMPAD7"@ {
        Some(KeyCode::ControlKey(ControlKey::Numpad7))
    } else if name == "VK_NUMPAD8"@ {
        Some(KeyCode::ControlKey(ControlKey::Numpad8))
    } else if name == "VK_NUMPAD9"@ {
        Some(KeyCode::ControlKey(ControlKey::Numpad9))
    } else if name == "Apps"@ {
        Some(KeyCode::ControlKey(ControlKey::Apps))
    } else if name == "Meta"@ {
        Some(KeyCode::ControlKey(ControlKey::Meta))
    } else if name == "RAlt"@ {
        Some(KeyCode::ControlKey(ControlKey::RAlt))
    } else if name == "RWin"@ {
        Some(KeyCode::ControlKey(ControlKey::RWin))
    } else if name == "RControl"@ {
        Some(KeyCode::ControlKey(ControlKey::RControl))
    } else if name == "RShift"@ {
        Some(KeyCode::ControlKey(ControlKey::RShift))
    } else if name == "CTRL_ALT_DEL"@ {
        Some(KeyCode::ControlKey(ControlKey::CtrlAltDel))
    } else if name == "LOCK_SCREEN"@ {
        Some(KeyCode::ControlKey(ControlKey::LockScreen))
    } else {
        None
    }
}

/// Tells whether the characters of a name are those of a word.
fn is_word(name: &Vec<char>, word: &str) -> (same: bool)
    ensures
        same == (name@ == word@),
{
    let wanted: Vec<char> = chars_of(word);
    assert(name@.subrange(0, name@.len() as int) =~= name@);
    segment_equals(name, 0, name.len(), &wanted)
}

/// Looks up the key code that a key name of the user interface stands
/// for. A name that is not known gives `None`.
pub fn key_code_by_name(name: &str) -> (keycode: Option<KeyCode>)
    ensures
        keycode == named_key_code(name@),
{
    let chars: Vec<char> = chars_of(name);
    if is_word(&chars, "VK_A") {
        Some(KeyCode::Chr('a' as u32))
    } else if is_word(&chars, "VK_B") {
        Some(KeyCode::Chr('b' as u32))
    } else if is_word(&chars, "VK_C") {
        Some(KeyCode::Chr('c' as u32))
    } else if is_word(&chars, "VK_D") {
        Some(KeyCode::Chr('d' as u32))
    } else if is_word(&chars, "VK_E") {
        Some(KeyCode::Chr('e' as u32))
    } else if is_word(&chars, "VK_F") {
        Some(KeyCode::Chr('f' as u32))
    } else if is_word(&chars, "VK_G") {
        Some(KeyCode::Chr('g' as u32))
    } else if is_word(&chars, "VK_H") {
        Some(KeyCode::Chr('h' as u32))
    } else if is_word(&chars, "VK_I") {
        Some(KeyCode::Chr('i' as u32))
    } else if is_word(&chars, "VK_J") {
        Some(KeyCode::Chr('j' as u32))
    } else if is_word(&chars, "VK_K") {
        Some(KeyCode::Chr('k' as u32))
    } else if is_word(&chars, "VK_L") {
        Some(KeyCode::Chr('l' as u32))
    } else if is_word(&chars, "VK_M") {
        Some(KeyCode::Chr('m' as u32))
    } else if is_word(&chars, "VK_N") {
        Some(KeyCode::Chr('n' as u32))
    } else if is_word(&chars, "VK_O") {
        Some(KeyCode::Chr('o' as u32))
    } else if is_word(&chars, "VK_P") {
        Some(KeyCode::Chr('p' as u32))
    } else if is_word(&chars, "VK_Q") {
        Some(KeyCode::Chr('q' as u32))
    } else if is_word(&chars, "VK_R") {
        Some(KeyCode::Chr('r' as u32))
    } else if is_word(&chars, "VK_S") {
        Some(KeyCode::Chr('s' as u32))
    } else if is_word(&chars, "VK_T") {
        Some(KeyCode::Chr('t' as u32))
    } else if is_word(&chars, "VK_U") {
        Some(KeyCode::Chr('u' as u32))
    } else if is_word(&chars, "VK_V") {
        Some(KeyCode::Chr('v' as u32))
    } else if is_word(&chars, "VK_W") {
        Some(KeyCode::Chr('w' as u32))
    } else if is_word(&chars, "VK_X") {
        Some(KeyCode::Chr('x' as u32))
    } else if is_word(&chars, "VK_Y") {
        Some(KeyCode::Chr('y' as u32))
    } else if is_word(&chars, "VK_Z") {
        Some(KeyCode::Chr('z' as u32))
    } else if is_word(&chars, "VK_0") {
        Some(KeyCode::Chr('0' as u32))
    } else if is_word(&chars, "VK_1") {
        Some(KeyCode::Chr('1' as u32))
    } else if is_word(&chars, "VK_2") {
        Some(KeyCode::Chr('2' as u32))
    } else if is_word(&chars, "VK_3") {
        Some(KeyCode::Chr('3' as u32))
    } else if is_word(&chars, "VK_4") {
        Some(KeyCode::Chr('4' as u32))
    } else if is_word(&chars, "VK_5") {
        Some(KeyCode::Chr('5' as u32))
    } else if is_word(&chars, "VK_6") {
        Some(KeyCode::Chr('6' as u32))
    } else if is_word(&chars, "VK_7") {
        Some(KeyCode::Chr('7' as u32))
    } else if is_word(&chars, "VK_8") {
        Some(KeyCode::Chr('8' as u32))
    } else if is_word(&chars, "VK_9") {
        Some(KeyCode::Chr('9' as u32))
    } else if is_word(&chars, "VK_COMMA") {
        Some(KeyCode::Chr(',' as u32))
    } else if is_word(&chars, "VK_SLASH") {
        Some(KeyCode::Chr('/' as u32))
    } else if is_word(&chars, "VK_SEMICOLON") {
        Some(KeyCode::Chr(';' as u32))
    } else if is_word(&chars, "VK_QUOTE") {
        Some(KeyCode::Chr('\'' as u32))
    } else if is_word(&chars, "VK_LBRACKET") {
        Some(KeyCode::Chr('[' as u32))
    } else if is_word(&chars, "VK_RBRACKET") {
        Some(KeyCode::Chr(']' as u32))
    } else if is_word(&chars, "VK_BACKSLASH") {
        Some(KeyCode::Chr('\\' as u32))
    } else if is_word(&chars, "VK_MINUS") {
        Some(KeyCode::Chr('-' as u32))
    } else if is_word(&chars, "VK_PLUS") {
        Some(KeyCode::Chr('=' as u32))
    } else if is_word(&chars, "VK_DIVIDE") {
        Some(KeyCode::ControlKey(ControlKey::Divide))
    } else if is_word(&chars, "VK_MULTIPLY") {
        Some(KeyCode::ControlKey(ControlKey::Multiply))
    } else if is_word(&chars, "VK_SUBTRACT") {
        Some(KeyCode::ControlKey(ControlKey::Subtract))
    } else if is_word(&chars, "VK_ADD") {
        Some(KeyCode::ControlKey(ControlKey::Add))
    } else if is_word(&chars, "VK_DECIMAL") {
        Some(KeyCode::ControlKey(ControlKey::Decimal))
    } else if is_word(&chars, "VK_F1") {
        Some(KeyCode::ControlKey(ControlKey::F1))
    } else if is_word(&chars, "VK_F2") {
        Some(KeyCode::ControlKey(ControlKey::F2))
    } else if is_word(&chars, "VK_F3") {
        Some(KeyCode::ControlKey(ControlKey::F3))
    } else if is_word(&chars, "VK_F4") {
        Some(KeyCode::ControlKey(ControlKey::F4))
    } else if is_word(&chars, "VK_F5") {
        Some(KeyCode::ControlKey(ControlKey::F5))
    } else if is_word(&chars, "VK_F6") {
        Some(KeyCode::ControlKey(ControlKey::F6))
    } else if is_word(&chars, "VK_F7") {
        Some(KeyCode::ControlKey(ControlKey::F7))
    } else if is_word(&chars, "VK_F8") {
        Some(KeyCode::ControlKey(ControlKey::F8))
    } else if is_word(&chars, "VK_F9") {
        Some(KeyCode::ControlKey(ControlKey::F9))
    } else if is_word(&chars, "VK_F10") {
        Some(KeyCode::ControlKey(ControlKey::F10))
    } else if is_word(&chars, "VK_F11") {
        Some(KeyCode::ControlKey(ControlKey::F11))
    } else if is_word(&chars, "VK_F12") {
        Some(KeyCode::ControlKey(ControlKey::F12))
    } else if is_word(&chars, "VK_ENTER") {
        Some(KeyCode::ControlKey(ControlKey::Return))
    } else if is_word(&chars, "VK_CANCEL") {
        Some(KeyCode::ControlKey(ControlKey::Cancel))
    } else if is_word(&chars, "VK_BACK") {
        Some(KeyCode::ControlKey(ControlKey::Backspace))
    } else if is_word(&chars, "VK_TAB") {
        Some(KeyCode::ControlKey(ControlKey::Tab))
    } else if is_word(&chars, "VK_CLEAR") {
        Some(KeyCode::ControlKey(ControlKey::Clear))
    } else if is_word(&chars, "VK_RETURN") {
        Some(KeyCode::ControlKey(ControlKey::Return))
    } else if is_word(&chars, "VK_SHIFT") {
        Some(KeyCode::ControlKey(ControlKey::Shift))
    } else if is_word(&chars, "VK_CONTROL") {
        Some(KeyCode::ControlKey(ControlKey::Control))
    } else if is_word(&chars, "VK_MENU") {
        Some(KeyCode::ControlKey(ControlKey::Alt))
    } else if is_word(&chars, "VK_PAUSE") {
        Some(KeyCode::ControlKey(ControlKey::Pause))
    } else if is_word(&chars, "VK_CAPITAL") {
        Some(KeyCode::ControlKey(ControlKey::CapsLock))
    } else if is_word(&chars, "VK_KANA") {
        Some(KeyCode::ControlKey(ControlKey::Kana))
    } else if is_word(&chars, "VK_HANGUL") {
        Some(KeyCode::ControlKey(ControlKey::Hangul))
    } else if is_word(&chars, "VK_JUNJA") {
        Some(KeyCode::ControlKey(ControlKey::Junja))
    } else if is_word(&chars, "VK_FINAL") {
        Some(KeyCode::ControlKey(ControlKey::Final))
    } else if is_word(&chars, "VK_HANJA") {
        Some(KeyCode::ControlKey(ControlKey::Hanja))
    } else if is_word(&chars, "VK_KANJI") {
        Some(KeyCode::ControlKey(ControlKey::Kanji))
    } else if is_word(&chars, "VK_ESCAPE") {
        Some(KeyCode::ControlKey(ControlKey::Escape))
    } else if is_word(&chars, "VK_CONVERT") {
        Some(KeyCode::ControlKey(ControlKey::Convert))
    } else if is_word(&chars, "VK_SPACE") {
        Some(KeyCode::ControlKey(ControlKey::Space))
    } else if is_word(&chars, "VK_PRIOR") {
        Some(KeyCode::ControlKey(ControlKey::PageUp))
    } else if is_word(&chars, "VK_NEXT") {
        Some(KeyCode::ControlKey(ControlKey::PageDown))
    } else if is_word(&chars, "VK_END") {
        Some(KeyCode::ControlKey(ControlKey::End))
    } else if is_word(&chars, "VK_HOME") {
        Some(KeyCode::ControlKey(ControlKey::Home))
    } else if is_word(&chars, "VK_LEFT") {
        Some(KeyCode::ControlKey(ControlKey::LeftArrow))
    } else if is_word(&chars, "VK_UP") {
        Some(KeyCode::ControlKey(ControlKey::UpArrow))
    } else if is_word(&chars, "VK_RIGHT") {
        Some(KeyCode::ControlKey(ControlKey::RightArrow))
    } else if is_word(&chars, "VK_DOWN") {
        Some(KeyCode::ControlKey(ControlKey::DownArrow))
    } else if is_word(&chars, "VK_SELECT") {
        Some(KeyCode::ControlKey(ControlKey::Select))
    } else if is_word(&chars, "VK_PRINT") {
        Some(KeyCode::ControlKey(ControlKey::Print))
    } else if is_word(&chars, "VK_EXECUTE") {
        Some(KeyCode::ControlKey(ControlKey::Execute))
    } else if is_word(&chars, "VK_SNAPSHOT") {
        Some(KeyCode::ControlKey(ControlKey::Snapshot))
    } else if is_word(&chars, "VK_INSERT") {
        Some(KeyCode::ControlKey(ControlKey::Insert))
    } else if is_word(&chars, "VK_DELETE") {
        Some(KeyCode::ControlKey(ControlKey::Delete))
    } else if is_word(&chars, "VK_HELP") {
        Some(KeyCode::ControlKey(ControlKey::Help))
    } else if is_word(&chars, "VK_SLEEP") {
        Some(KeyCode::ControlKey(ControlKey::Sleep))
    } else if is_word(&chars, "VK_SEPARATOR") {
        Some(KeyCode::ControlKey(ControlKey::Separator))
    } else if is_word(&chars, "VK_NUMPAD0") {
        Some(KeyCode::ControlKey(ControlKey::Numpad0))
    } else if is_word(&chars, "VK_NUMPAD1") {
        Some(KeyCode::ControlKey(ControlKey::Numpad1))
    } else if is_word(&chars, "VK_NUMPAD2") {
        Some(KeyCode::ControlKey(ControlKey::Numpad2))
    } else if is_word(&chars, "VK_NUMPAD3") {
        Some(KeyCode::ControlKey(ControlKey::Numpad3))
    } else if is_word(&chars, "VK_NUMPAD4") {
        Some(KeyCode::ControlKey(ControlKey::Numpad4))
    } else if is_word(&chars, "VK_NUMPAD5") {
        Some(KeyCode::ControlKey(ControlKey::Numpad5))
    } else if is_word(&chars, "VK_NUMPAD6") {
        Some(KeyCode::ControlKey(ControlKey::Numpad6))
    } else if is_word(&chars, "VK_NUMPAD7") {
        Some(KeyCode::ControlKey(ControlKey::Numpad7))
    } else if is_word(&chars, "VK_NUMPAD8") {
        Some(KeyCode::ControlKey(ControlKey::Numpad8))
    } else if is_word(&chars, "VK_NUMPAD9") {
        Some(KeyCode::ControlKey(ControlKey::Numpad9))
    } else if is_word(&chars, "Apps") {
        Some(KeyCode::ControlKey(ControlKey::Apps))
    } else if is_word(&chars, "Meta") {
        Some(KeyCode::ControlKey(ControlKey::Meta))
    } else if is_word(&chars, "RAlt") {
        Some(KeyCode::ControlKey(ControlKey::RAlt))
    } else if is_word(&chars, "RWin") {
        Some(KeyCode::ControlKey(ControlKey::RWin))
    } else if is_word(&chars, "RControl") {
        Some(KeyCode::ControlKey(ControlKey::RControl))
    } else if is_word(&chars, "RShift") {
        Some(KeyCode::ControlKey(ControlKey::RShift))
    } else if is_word(&chars, "CTRL_ALT_DEL") {
        Some(KeyCode::ControlKey(ControlKey::CtrlAltDel))
    } else if is_word(&chars, "LOCK_SCREEN") {
        Some(KeyCode::ControlKey(ControlKey::LockScreen))
    } else {
        None
    }
}

} // verus!
