use keyboard_impl::{
    ControlKey, Event, EventInfo, EventType, Key, KeyCode, KeyEvent, KeyEventUnion, KeyboardError,
    KeyboardEvent, KeyboardMode, Modifiers, PhysKeyCode, RawKeyEvent, RawKeyboardEvent,
    UnicodeInfo,
};

fn wire(union: Option<KeyEventUnion>, raw_event: Option<RawKeyEvent>) -> KeyEvent {
    KeyEvent {
        down: true,
        union,
        raw_event,
        mode: KeyboardMode::Mapped,
    }
}

fn raw(phys: i32, modifiers: u32) -> RawKeyEvent {
    RawKeyEvent {
        phys,
        press: true,
        modifiers,
        sys_code: 65,
    }
}

fn captured(event_type: EventType, name: Option<&str>, is_dead: bool, scan_code: u32) -> Event {
    Event {
        event_type,
        unicode: name.map(|name| UnicodeInfo {
            name: Some(name.to_string()),
            is_dead,
        }),
        code: 0,
        scan_code,
    }
}

#[test]
fn each_wire_field_gives_one_kind_of_key_code() {
    assert_eq!(
        Ok(KeyCode::ControlKey(ControlKey::Tab)),
        KeyCode::from_key_event(&wire(Some(KeyEventUnion::ControlKey(31)), None))
    );
    assert_eq!(
        Ok(KeyCode::Raw(10_485_810)),
        KeyCode::from_key_event(&wire(Some(KeyEventUnion::Chr(10_485_810)), None))
    );
    assert_eq!(
        Ok(KeyCode::Chr(0x61)),
        KeyCode::from_key_event(&wire(Some(KeyEventUnion::Unicode(0x61)), None))
    );
    assert_eq!(
        Ok(KeyCode::Sequence("né".to_string())),
        KeyCode::from_key_event(&wire(Some(KeyEventUnion::Sequence("né".to_string())), None))
    );
}

#[test]
fn a_wire_event_that_names_no_key_is_refused() {
    assert_eq!(
        Err(KeyboardError::InvalidWireEvent),
        KeyCode::from_key_event(&wire(None, None))
    );
    assert_eq!(
        Err(KeyboardError::InvalidWireEvent),
        KeyCode::from_key_event(&wire(Some(KeyEventUnion::ControlKey(76)), None))
    );
    assert_eq!(
        Err(KeyboardError::InvalidWireEvent),
        KeyCode::from_key_event(&wire(Some(KeyEventUnion::ControlKey(-1)), Some(raw(0, 0))))
    );
}

#[test]
fn the_physical_action_is_checked() {
    let tab = PhysKeyCode::Tab.value();
    assert_eq!(
        Ok(RawKeyboardEvent {
            phys: PhysKeyCode::Tab,
            press: true,
            modifiers: Modifiers::alt(),
            sys_code: 65
        }),
        RawKeyboardEvent::from_raw_key_event(&raw(tab, 4))
    );
    assert_eq!(
        Err(KeyboardError::InvalidWireEvent),
        RawKeyboardEvent::from_raw_key_event(&raw(119, 4))
    );
    assert_eq!(
        Err(KeyboardError::InvalidWireEvent),
        RawKeyboardEvent::from_raw_key_event(&raw(-1, 4))
    );
    assert_eq!(
        Err(KeyboardError::InvalidWireEvent),
        RawKeyboardEvent::from_raw_key_event(&raw(tab, 1))
    );
    assert_eq!(
        Err(KeyboardError::InvalidWireEvent),
        RawKeyboardEvent::from_raw_key_event(&raw(tab, 0x4000))
    );
}

#[test]
fn a_wire_event_becomes_a_keyboard_event() {
    let tab = PhysKeyCode::Tab.value();
    let event = KeyboardEvent::from_key_event(&wire(
        Some(KeyEventUnion::ControlKey(31)),
        Some(raw(tab, 4)),
    ));
    assert_eq!(
        Ok(KeyboardEvent {
            keycode: Some(KeyCode::ControlKey(ControlKey::Tab)),
            press: true,
            modifiers: Modifiers::none(),
            raw_event: Some(RawKeyboardEvent {
                phys: PhysKeyCode::Tab,
                press: true,
                modifiers: Modifiers::alt(),
                sys_code: 65
            }),
        }),
        event
    );
    // an invalid key code is dropped where the physical action is there
    let event = KeyboardEvent::from_key_event(&wire(
        Some(KeyEventUnion::ControlKey(99)),
        Some(raw(tab, 0)),
    ))
    .unwrap();
    assert_eq!(None, event.keycode);
    assert!(event.raw_event.is_some());
    let event = KeyboardEvent::from_key_event(&wire(None, Some(raw(tab, 0)))).unwrap();
    assert_eq!(None, event.keycode);
    // a key code alone is enough
    let mut released = wire(Some(KeyEventUnion::Unicode(0x62)), None);
    released.down = false;
    assert_eq!(
        Ok(KeyboardEvent {
            keycode: Some(KeyCode::Chr(0x62)),
            press: false,
            modifiers: Modifiers::none(),
            raw_event: None,
        }),
        KeyboardEvent::from_key_event(&released)
    );
}

#[test]
fn a_wire_event_with_nothing_valid_is_refused() {
    assert_eq!(
        Err(KeyboardError::InvalidWireEvent),
        KeyboardEvent::from_key_event(&wire(None, None))
    );
    assert_eq!(
        Err(KeyboardError::InvalidWireEvent),
        KeyboardEvent::from_key_event(&wire(Some(KeyEventUnion::ControlKey(500)), None))
    );
    assert_eq!(
        Err(KeyboardError::InvalidWireEvent),
        KeyboardEvent::from_key_event(&wire(Some(KeyEventUnion::ControlKey(31)), Some(raw(4000, 0))))
    );
    assert_eq!(
        Err(KeyboardError::InvalidWireEvent),
        KeyboardEvent::from_key_event(&wire(
            Some(KeyEventUnion::ControlKey(31)),
            Some(raw(3, 0x8000_0000))
        ))
    );
}

#[test]
fn captured_events_tell_their_key() {
    let press = captured(EventType::KeyPress(Key::KeyA), None, false, 30);
    assert_eq!(Ok(Key::KeyA), press.key());
    assert!(press.press());
    assert!(!press.is_altgr());
    let release = captured(EventType::KeyRelease(Key::AltGr), None, false, 57400);
    assert_eq!(Ok(Key::AltGr), release.key());
    assert!(!release.press());
    assert!(release.is_altgr());
    let other = captured(EventType::Other, None, false, 0);
    assert_eq!(Err(KeyboardError::InvalidWireEvent), other.key());
    assert!(!other.press());
}

#[test]
fn a_captured_character_goes_as_its_code_point() {
    let event = captured(EventType::KeyPress(Key::KeyA), Some("a"), false, 30);
    let sent = KeyEvent::from_event(&event, Key::KeyA, Some(0x61), Modifiers::left_shift(), false);
    assert_eq!(
        Ok(KeyEvent {
            down: true,
            union: Some(KeyEventUnion::Unicode(0x61)),
            raw_event: Some(RawKeyEvent {
                phys: PhysKeyCode::KeyA.value(),
                press: true,
                modifiers: Modifiers::left_shift().bits(),
                sys_code: 0x61
            }),
            mode: KeyboardMode::Legacy,
        }),
        sent
    );
}

#[test]
fn captured_text_of_more_than_one_byte_goes_as_a_sequence() {
    for text in ["ab", "é", "中", "a\u{301}"] {
        let event = captured(EventType::KeyRelease(Key::KeyE), Some(text), false, 18);
        let sent = KeyEvent::from_event(&event, Key::KeyE, Some(1), Modifiers::none(), false).unwrap();
        assert_eq!(Some(KeyEventUnion::Sequence(text.to_string())), sent.union);
        assert!(!sent.down);
        assert!(!sent.raw_event.unwrap().press);
    }
    let event = captured(EventType::KeyPress(Key::KeyE), Some("\u{7f}"), false, 18);
    let sent = KeyEvent::from_event(&event, Key::KeyE, Some(1), Modifiers::none(), false).unwrap();
    assert_eq!(Some(KeyEventUnion::Unicode(0x7f)), sent.union);
}

#[test]
fn a_captured_key_without_text_goes_as_its_logical_key() {
    let event = captured(EventType::KeyPress(Key::Tab), None, false, 15);
    let sent = KeyEvent::from_event(&event, Key::Tab, Some(9), Modifiers::none(), false).unwrap();
    assert_eq!(Some(KeyEventUnion::ControlKey(31)), sent.union);
    // the text of a dead key does not count
    let event = captured(EventType::KeyPress(Key::Tab), Some("^"), true, 15);
    let sent = KeyEvent::from_event(&event, Key::Tab, Some(9), Modifiers::none(), false).unwrap();
    assert_eq!(Some(KeyEventUnion::ControlKey(31)), sent.union);
    // a key without a logical name goes unnamed
    let event = captured(EventType::KeyPress(Key::KeyA), None, false, 30);
    let sent = KeyEvent::from_event(&event, Key::KeyA, Some(9), Modifiers::none(), false).unwrap();
    assert_eq!(None, sent.union);
    let event = Event {
        event_type: EventType::KeyPress(Key::KeyA),
        unicode: Some(UnicodeInfo {
            name: None,
            is_dead: false,
        }),
        code: 0,
        scan_code: 30,
    };
    let sent = KeyEvent::from_event(&event, Key::KeyA, Some(9), Modifiers::none(), false).unwrap();
    assert_eq!(None, sent.union);
}

#[test]
fn alternate_graphics_is_folded_where_its_key_is_involved() {
    let pair = Modifiers::left_ctrl().union(Modifiers::right_alt());
    let event = captured(EventType::KeyPress(Key::KeyQ), Some("@"), false, 16);
    let sent = KeyEvent::from_event(&event, Key::KeyQ, Some(0x40), pair, false).unwrap();
    assert_eq!(pair.bits(), sent.raw_event.unwrap().modifiers);
    let sent = KeyEvent::from_event(&event, Key::KeyQ, Some(0x40), pair, true).unwrap();
    assert_eq!(Modifiers::alt_gr().bits(), sent.raw_event.unwrap().modifiers);
    let event = captured(EventType::KeyPress(Key::AltGr), None, false, 57400);
    let sent = KeyEvent::from_event(&event, Key::AltGr, Some(0), pair, false).unwrap();
    assert_eq!(Modifiers::alt_gr().bits(), sent.raw_event.unwrap().modifiers);
    assert_eq!(Some(KeyEventUnion::ControlKey(75)), sent.union);
}

#[test]
fn captured_events_that_cannot_be_sent_are_refused() {
    let event = captured(EventType::KeyPress(Key::KeyA), Some("a"), false, 30);
    assert_eq!(
        Err(KeyboardError::UnmappableKey),
        KeyEvent::from_event(&event, Key::Unknown(300), Some(1), Modifiers::none(), false)
    );
    assert_eq!(
        Err(KeyboardError::UnmappableKey),
        KeyEvent::from_event(&event, Key::Kana, Some(1), Modifiers::none(), false)
    );
    assert_eq!(
        Err(KeyboardError::UnmappableKey),
        KeyEvent::from_event(&event, Key::KeyA, None, Modifiers::none(), false)
    );
    let empty = captured(EventType::KeyPress(Key::KeyA), Some(""), false, 30);
    assert_eq!(
        Err(KeyboardError::InvalidWireEvent),
        KeyEvent::from_event(&empty, Key::KeyA, Some(1), Modifiers::none(), false)
    );
    // the text is looked at before the system code
    assert_eq!(
        Err(KeyboardError::InvalidWireEvent),
        KeyEvent::from_event(&empty, Key::KeyA, None, Modifiers::none(), false)
    );
}

#[test]
fn a_captured_event_and_its_wire_event_make_a_keyboard_event() {
    let event = captured(EventType::KeyPress(Key::Tab), None, false, 15);
    let sent = wire(Some(KeyEventUnion::ControlKey(31)), None);
    assert_eq!(
        Ok(KeyboardEvent {
            keycode: Some(KeyCode::ControlKey(ControlKey::Tab)),
            press: true,
            modifiers: Modifiers::none(),
            raw_event: Some(RawKeyboardEvent {
                phys: PhysKeyCode::Tab,
                press: true,
                modifiers: Modifiers::none(),
                sys_code: 9
            }),
        }),
        KeyboardEvent::from_events(&event, Some(9), &sent)
    );
    let unnamed = KeyboardEvent::from_events(&event, Some(9), &wire(None, None)).unwrap();
    assert_eq!(None, unnamed.keycode);
    assert_eq!(
        Err(KeyboardError::UnmappableKey),
        KeyboardEvent::from_events(&event, None, &sent)
    );
    let other = captured(EventType::Other, None, false, 0);
    assert_eq!(
        Err(KeyboardError::InvalidWireEvent),
        KeyboardEvent::from_events(&other, Some(9), &sent)
    );
    let unplaced = captured(EventType::KeyRelease(Key::Hangul), None, false, 0);
    assert_eq!(
        Err(KeyboardError::UnmappableKey),
        KeyboardEvent::from_events(&unplaced, Some(9), &sent)
    );
}
