use keyboard_impl::key_map::key_code_by_name;
use keyboard_impl::{ControlKey, KeyCode};

#[test]
fn key_names_stand_for_characters_and_logical_keys() {
    assert_eq!(Some(KeyCode::Chr('a' as u32)), key_code_by_name("VK_A"));
    assert_eq!(Some(KeyCode::Chr('z' as u32)), key_code_by_name("VK_Z"));
    assert_eq!(Some(KeyCode::Chr('0' as u32)), key_code_by_name("VK_0"));
    assert_eq!(Some(KeyCode::Chr('=' as u32)), key_code_by_name("VK_PLUS"));
    assert_eq!(Some(KeyCode::Chr('\\' as u32)), key_code_by_name("VK_BACKSLASH"));
    assert_eq!(Some(KeyCode::Chr('\'' as u32)), key_code_by_name("VK_QUOTE"));
    assert_eq!(
        Some(KeyCode::ControlKey(ControlKey::Return)),
        key_code_by_name("VK_ENTER")
    );
    assert_eq!(
        Some(KeyCode::ControlKey(ControlKey::Return)),
        key_code_by_name("VK_RETURN")
    );
    assert_eq!(
        Some(KeyCode::ControlKey(ControlKey::Add)),
        key_code_by_name("VK_ADD")
    );
    assert_eq!(
        Some(KeyCode::ControlKey(ControlKey::Kanji)),
        key_code_by_name("VK_KANJI")
    );
    assert_eq!(
        Some(KeyCode::ControlKey(ControlKey::CtrlAltDel)),
        key_code_by_name("CTRL_ALT_DEL")
    );
    assert_eq!(
        Some(KeyCode::ControlKey(ControlKey::RShift)),
        key_code_by_name("RShift")
    );
    assert_eq!(None, key_code_by_name("VK_a"));
    assert_eq!(None, key_code_by_name("VK_"));
    assert_eq!(None, key_code_by_name(""));
    assert_eq!(None, key_code_by_name("VK_F13"));
    assert_eq!(None, key_code_by_name(" VK_A"));
}

#[test]
fn every_key_name_is_known() {
    let names = [
        "VK_A",
        "VK_B",
        "VK_C",
        "VK_D",
        "VK_E",
        "VK_F",
        "VK_G",
        "VK_H",
        "VK_I",
        "VK_J",
        "VK_K",
        "VK_L",
        "VK_M",
        "VK_N",
        "VK_O",
        "VK_P",
        "VK_Q",
        "VK_R",
        "VK_S",
        "VK_T",
        "VK_U",
        "VK_V",
        "VK_W",
        "VK_X",
        "VK_Y",
        "VK_Z",
        "VK_0",
        "VK_1",
        "VK_2",
        "VK_3",
        "VK_4",
        "VK_5",
        "VK_6",
        "VK_7",
        "VK_8",
        "VK_9",
        "VK_COMMA",
        "VK_SLASH",
        "VK_SEMICOLON",
        "VK_QUOTE",
        "VK_LBRACKET",
        "VK_RBRACKET",
        "VK_BACKSLASH",
        "VK_MINUS",
        "VK_PLUS",
        "VK_DIVIDE",
        "VK_MULTIPLY",
        "VK_SUBTRACT",
        "VK_ADD",
        "VK_DECIMAL",
        "VK_F1",
        "VK_F2",
        "VK_F3",
        "VK_F4",
        "VK_F5",
        "VK_F6",
        "VK_F7",
        "VK_F8",
        "VK_F9",
        "VK_F10",
        "VK_F11",
        "VK_F12",
        "VK_ENTER",
        "VK_CANCEL",
        "VK_BACK",
        "VK_TAB",
        "VK_CLEAR",
        "VK_RETURN",
        "VK_SHIFT",
        "VK_CONTROL",
        "VK_MENU",
        "VK_PAUSE",
        "VK_CAPITAL",
        "VK_KANA",
        "VK_HANGUL",
        "VK_JUNJA",
        "VK_FINAL",
        "VK_HANJA",
        "VK_KANJI",
        "VK_ESCAPE",
        "VK_CONVERT",
        "VK_SPACE",
        "VK_PRIOR",
        "VK_NEXT",
        "VK_END",
        "VK_HOME",
        "VK_LEFT",
        "VK_UP",
        "VK_RIGHT",
        "VK_DOWN",
        "VK_SELECT",
        "VK_PRINT",
        "VK_EXECUTE",
        "VK_SNAPSHOT",
        "VK_INSERT",
        "VK_DELETE",
        "VK_HELP",
        "VK_SLEEP",
        "VK_SEPARATOR",
        "VK_NUMPAD0",
        "VK_NUMPAD1",
        "VK_NUMPAD2",
        "VK_NUMPAD3",
        "VK_NUMPAD4",
        "VK_NUMPAD5",
        "VK_NUMPAD6",
        "VK_NUMPAD7",
        "VK_NUMPAD8",
        "VK_NUMPAD9",
        "Apps",
        "Meta",
        "RAlt",
        "RWin",
        "RControl",
        "RShift",
        "CTRL_ALT_DEL",
        "LOCK_SCREEN",
    ];
    assert_eq!(117, names.len());
    for name in names {
        assert!(key_code_by_name(name).is_some(), "{}", name);
    }
}
