use keyboard_impl::{
    ControlKey, KeyCode, KeyEvent, KeyEventUnion, KeyboardMode, PhysKeyCode, RawKeyEvent,
};

fn line(phys: &str, press: bool, keycode: &str, sys_code: u32, modifiers: &str) -> String {
    format!(
        "PhysKeyCode={0: <12} | press={1: <5} | keycode={2: <12} | sys_code={3: <10} | modifiers={4:}",
        phys, press, keycode, sys_code, modifiers,
    )
}

fn wire(union: Option<KeyEventUnion>, raw_event: Option<RawKeyEvent>) -> KeyEvent {
    KeyEvent {
        down: true,
        union,
        raw_event,
        mode: KeyboardMode::Legacy,
    }
}

#[test]
fn key_codes_are_written_by_kind() {
    assert_eq!("Tab", KeyCode::ControlKey(ControlKey::Tab).to_string());
    assert_eq!(
        "CtrlAltDel",
        KeyCode::ControlKey(ControlKey::CtrlAltDel).to_string()
    );
    assert_eq!("Chr('a')", KeyCode::Chr('a' as u32).to_string());
    assert_eq!("Chr('\\n')", KeyCode::Chr(10).to_string());
    assert_eq!("Chr('\\'')", KeyCode::Chr('\'' as u32).to_string());
    assert_eq!("Chr('é')", KeyCode::Chr(0xe9).to_string());
    assert_eq!("None", KeyCode::Chr(0xd800).to_string());
    assert_eq!("None", KeyCode::Chr(0x11_0000).to_string());
    assert_eq!("Raw(0)", KeyCode::Raw(0).to_string());
    assert_eq!("Raw(38)", KeyCode::Raw(38).to_string());
    assert_eq!("Raw(4294967295)", KeyCode::Raw(u32::MAX).to_string());
    assert_eq!("Seq(\"ab\")", KeyCode::Sequence("ab".to_string()).to_string());
    assert_eq!(
        "Seq(\"a\\\"b\\t\")",
        KeyCode::Sequence("a\"b\t".to_string()).to_string()
    );
    assert_eq!("Seq(\"\")", KeyCode::Sequence(String::new()).to_string());
    assert_eq!("Phys(KeyA)", KeyCode::PhysCode(PhysKeyCode::KeyA).to_string());
    assert_eq!(
        "Phys(IntlBackslash)",
        KeyCode::PhysCode(PhysKeyCode::IntlBackslash).to_string()
    );
}

#[test]
fn names_are_those_of_the_variants() {
    for value in -5..200 {
        if let Some(key) = ControlKey::from_i32(value) {
            assert_eq!(format!("{:?}", key), key.name());
        }
        if let Some(phys) = PhysKeyCode::from_i32(value) {
            assert_eq!(format!("{:?}", phys), phys.name());
        }
    }
}

#[test]
fn a_wire_event_is_written_in_columns() {
    let event = wire(
        Some(KeyEventUnion::ControlKey(31)),
        Some(RawKeyEvent {
            phys: PhysKeyCode::Tab.value(),
            press: true,
            modifiers: 4,
            sys_code: 65,
        }),
    );
    assert_eq!(line("Tab", true, "Tab", 65, "ALT"), event.format());
    assert_eq!(
        "PhysKeyCode=Tab          | press=true  | keycode=Tab          | sys_code=65         | modifiers=ALT",
        event.format()
    );
}

#[test]
fn columns_are_not_cut() {
    let event = wire(
        Some(KeyEventUnion::Sequence("a long sequence".to_string())),
        Some(RawKeyEvent {
            phys: PhysKeyCode::IntlBackslash.value(),
            press: false,
            modifiers: 0x3ffe,
            sys_code: u32::MAX,
        }),
    );
    assert_eq!(
        line(
            "IntlBackslash",
            false,
            "Seq(\"a long sequence\")",
            u32::MAX,
            "SHIFT|ALT|CTRL|META|LEFT_ALT|RIGHT_ALT|LEFT_CTRL|RIGHT_CTRL|LEFT_SHIFT|RIGHT_SHIFT|CAPS|NUM|ALT_GR"
        ),
        event.format()
    );
}

#[test]
fn what_is_not_valid_is_written_as_it_is() {
    let event = wire(
        Some(KeyEventUnion::ControlKey(99)),
        Some(RawKeyEvent {
            phys: 500,
            press: true,
            modifiers: 1,
            sys_code: 0,
        }),
    );
    assert_eq!(line("500", true, "None", 0, "None"), event.format());
    let event = wire(
        None,
        Some(RawKeyEvent {
            phys: -7,
            press: true,
            modifiers: 0,
            sys_code: 1234567890,
        }),
    );
    assert_eq!(line("-7", true, "None", 1234567890, "NONE"), event.format());
    let event = wire(
        None,
        Some(RawKeyEvent {
            phys: i32::MIN,
            press: false,
            modifiers: 2,
            sys_code: 7,
        }),
    );
    assert_eq!(
        line("-2147483648", false, "None", 7, "SHIFT"),
        event.format()
    );
    let event = wire(Some(KeyEventUnion::Unicode(0x61)), None);
    assert_eq!(
        line("AltLeft", false, "Chr('a')", 0, "NONE"),
        event.format()
    );
    let event = wire(Some(KeyEventUnion::Chr(7)), None);
    assert_eq!(line("AltLeft", false, "Raw(7)", 0, "NONE"), event.format());
}
