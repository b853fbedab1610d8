use keyboard_impl::enigo;
use keyboard_impl::keymap::{HardwareKey, HardwareKeymap};
use keyboard_impl::{
    needs_current_modifiers, prepare_pressed_keys, release_modifiers, resolve_keysym, simulate_char_without_modifiers,
    simulate_keyboard_event, simulate_phys, simulate_raw, simulate_resolved_char, ControlKey,
    EventType, InjectAction, InjectStep, Key, KeyCode, KeyboardError, KeyboardEvent, Modifiers,
    PhysKeyCode, RawKeyboardEvent, Replay, XKeyboard,
};

fn required(phys: PhysKeyCode, press: bool) -> InjectStep {
    InjectStep {
        action: InjectAction::Key { phys, press },
        required: true,
    }
}

fn optional(phys: PhysKeyCode, press: bool) -> InjectStep {
    InjectStep {
        action: InjectAction::Key { phys, press },
        required: false,
    }
}

fn event(keycode: Option<KeyCode>, phys: PhysKeyCode, press: bool, modifiers: Modifiers) -> KeyboardEvent {
    KeyboardEvent {
        keycode,
        press,
        modifiers: Modifiers::none(),
        raw_event: Some(RawKeyboardEvent {
            phys,
            press,
            modifiers,
            sys_code: 0,
        }),
    }
}

#[test]
fn test_simulate_phys_chr() {
    // Ctrl + a
    assert_eq!(
        Ok(EventType::KeyPress(Key::ControlLeft)),
        simulate_phys(PhysKeyCode::ControlLeft, true)
    );
    assert_eq!(
        vec![
            (enigo::Key::Layout('a'), true),
            (enigo::Key::Layout('a'), false)
        ],
        simulate_char_without_modifiers('a')
    );
    assert_eq!(
        Ok(EventType::KeyRelease(Key::ControlLeft)),
        simulate_phys(PhysKeyCode::ControlLeft, false)
    );
}

#[test]
fn test_simulate_alt_tab() {
    let plan = simulate_keyboard_event(
        &KeyboardEvent {
            keycode: Some(KeyCode::ControlKey(ControlKey::Tab)),
            press: true,
            modifiers: Modifiers::none(),
            raw_event: Some(RawKeyboardEvent {
                phys: PhysKeyCode::Tab,
                press: true,
                modifiers: Modifiers::alt(),
                sys_code: 0,
            }),
        },
        Modifiers::none(),
    );
    assert_eq!(
        Ok(vec![
            required(PhysKeyCode::AltLeft, true),
            optional(PhysKeyCode::Tab, true),
            optional(PhysKeyCode::Tab, false),
        ]),
        plan
    );
    let plan = simulate_keyboard_event(
        &KeyboardEvent {
            keycode: Some(KeyCode::ControlKey(ControlKey::Alt)),
            press: false,
            modifiers: Modifiers::none(),
            raw_event: Some(RawKeyboardEvent {
                phys: PhysKeyCode::AltLeft,
                press: false,
                modifiers: Modifiers::none(),
                sys_code: 0,
            }),
        },
        Modifiers::alt(),
    );
    assert_eq!(Ok(vec![required(PhysKeyCode::AltLeft, false)]), plan);
}

#[test]
fn test_simulate_alt_o() {
    // If simulate 'o' by enigo, alt will be released.
    let plan = simulate_keyboard_event(
        &KeyboardEvent {
            keycode: Some(KeyCode::Chr('o' as u32)),
            press: true,
            modifiers: Modifiers::none(),
            raw_event: Some(RawKeyboardEvent {
                // French keyboard.
                phys: PhysKeyCode::KeyO,
                press: true,
                modifiers: Modifiers::alt(),
                sys_code: 0,
            }),
        },
        Modifiers::none(),
    );
    assert_eq!(
        Ok(vec![
            required(PhysKeyCode::AltLeft, true),
            InjectStep {
                action: InjectAction::Char('o' as u32),
                required: true
            },
        ]),
        plan
    );
    assert_eq!(
        Ok(EventType::KeyRelease(Key::Alt)),
        simulate_phys(PhysKeyCode::AltLeft, false)
    );
}

#[test]
fn test_prepare() {
    let kbd_event_vec = vec![KeyboardEvent::with_phys(PhysKeyCode::ControlLeft, true)];
    assert_eq!(
        Ok(vec![required(PhysKeyCode::ControlLeft, true)]),
        prepare_pressed_keys(&kbd_event_vec)
    );
    assert_eq!(
        Ok(EventType::KeyRelease(Key::ControlLeft)),
        simulate_phys(PhysKeyCode::ControlLeft, false)
    );
}

#[test]
fn alt_tab_holds_alt_and_taps_tab() {
    let plan = simulate_keyboard_event(
        &event(
            Some(KeyCode::ControlKey(ControlKey::Tab)),
            PhysKeyCode::Tab,
            true,
            Modifiers::alt(),
        ),
        Modifiers::none(),
    )
    .unwrap();
    let actions: Vec<InjectAction> = plan.iter().map(|step| step.action).collect();
    assert_eq!(
        vec![
            InjectAction::Key {
                phys: PhysKeyCode::AltLeft,
                press: true
            },
            InjectAction::Key {
                phys: PhysKeyCode::Tab,
                press: true
            },
            InjectAction::Key {
                phys: PhysKeyCode::Tab,
                press: false
            },
        ],
        actions
    );
    // with alt held already, nothing is done for it
    let plan = simulate_keyboard_event(
        &event(
            Some(KeyCode::ControlKey(ControlKey::Tab)),
            PhysKeyCode::Tab,
            true,
            Modifiers::alt(),
        ),
        Modifiers::left_alt(),
    );
    assert_eq!(
        Ok(vec![
            optional(PhysKeyCode::Tab, true),
            optional(PhysKeyCode::Tab, false)
        ]),
        plan
    );
}

#[test]
fn control_a_holds_control_and_types_the_character() {
    let plan = simulate_keyboard_event(
        &event(
            Some(KeyCode::Chr('a' as u32)),
            PhysKeyCode::KeyA,
            true,
            Modifiers::ctrl(),
        ),
        Modifiers::none(),
    );
    assert_eq!(
        Ok(vec![
            required(PhysKeyCode::ControlLeft, true),
            InjectStep {
                action: InjectAction::Char(0x61),
                required: true
            },
        ]),
        plan
    );
}

#[test]
fn the_release_of_a_character_asks_for_nothing() {
    let plan = simulate_keyboard_event(
        &event(
            Some(KeyCode::Chr('a' as u32)),
            PhysKeyCode::KeyA,
            false,
            Modifiers::ctrl(),
        ),
        Modifiers::none(),
    );
    assert_eq!(Ok(vec![]), plan);
    let plan = simulate_keyboard_event(
        &event(Some(KeyCode::Chr(0xd800)), PhysKeyCode::KeyA, false, Modifiers::none()),
        Modifiers::none(),
    );
    assert_eq!(Ok(vec![]), plan);
}

#[test]
fn a_modifier_key_is_passed_on_as_it_comes() {
    let plan = simulate_keyboard_event(
        &event(
            Some(KeyCode::ControlKey(ControlKey::RShift)),
            PhysKeyCode::ShiftRight,
            true,
            Modifiers::ctrl(),
        ),
        Modifiers::none(),
    );
    assert_eq!(Ok(vec![required(PhysKeyCode::ShiftRight, true)]), plan);
}

#[test]
fn events_that_cannot_be_replayed_are_refused() {
    let no_action = KeyboardEvent {
        keycode: Some(KeyCode::ControlKey(ControlKey::Tab)),
        press: true,
        modifiers: Modifiers::none(),
        raw_event: None,
    };
    assert_eq!(
        Err(KeyboardError::InvalidWireEvent),
        simulate_keyboard_event(&no_action, Modifiers::none())
    );
    assert_eq!(
        Err(KeyboardError::InvalidWireEvent),
        simulate_keyboard_event(
            &KeyboardEvent::with_phys(PhysKeyCode::Tab, true),
            Modifiers::none()
        )
    );
    for keycode in [
        KeyCode::Raw(38),
        KeyCode::Sequence("ab".to_string()),
        KeyCode::PhysCode(PhysKeyCode::KeyA),
    ] {
        assert_eq!(
            Err(KeyboardError::UnsupportedKeyCode),
            simulate_keyboard_event(
                &event(Some(keycode), PhysKeyCode::KeyA, true, Modifiers::none()),
                Modifiers::none()
            )
        );
    }
    for code_point in [0xd800, 0xdfff, 0x11_0000, u32::MAX] {
        assert_eq!(
            Err(KeyboardError::InvalidWireEvent),
            simulate_keyboard_event(
                &event(
                    Some(KeyCode::Chr(code_point)),
                    PhysKeyCode::KeyA,
                    true,
                    Modifiers::shift()
                ),
                Modifiers::none()
            )
        );
    }
    for code_point in [0, 0xd7ff, 0xe000, 0x10_ffff] {
        assert!(simulate_keyboard_event(
            &event(
                Some(KeyCode::Chr(code_point)),
                PhysKeyCode::KeyA,
                true,
                Modifiers::none()
            ),
            Modifiers::none()
        )
        .is_ok());
    }
}

#[test]
fn an_event_without_a_key_code_asks_for_nothing() {
    assert_eq!(
        Ok(vec![]),
        simulate_keyboard_event(
            &event(None, PhysKeyCode::Num1, false, Modifiers::shift()),
            Modifiers::none()
        )
    );
}

#[test]
fn release_modifiers_releases_all_eight_keys() {
    assert_eq!(
        vec![
            required(PhysKeyCode::ShiftLeft, false),
            required(PhysKeyCode::ShiftRight, false),
            required(PhysKeyCode::ControlLeft, false),
            required(PhysKeyCode::ControlRight, false),
            required(PhysKeyCode::AltLeft, false),
            required(PhysKeyCode::AltRight, false),
            required(PhysKeyCode::MetaLeft, false),
            required(PhysKeyCode::MetaRight, false),
        ],
        release_modifiers()
    );
}

#[test]
fn a_required_step_that_fails_ends_the_replay() {
    let step = required(PhysKeyCode::AltLeft, true);
    assert_eq!(Ok(()), step.outcome(true));
    assert_eq!(Err(KeyboardError::InjectorFailure), step.outcome(false));
    let step = optional(PhysKeyCode::Tab, true);
    assert_eq!(Ok(()), step.outcome(true));
    assert_eq!(Ok(()), step.outcome(false));
}

#[test]
fn prepare_passes_over_what_is_not_a_position() {
    let events = vec![
        KeyboardEvent::with_phys(PhysKeyCode::ShiftLeft, true),
        event(
            Some(KeyCode::Chr(0x61)),
            PhysKeyCode::KeyA,
            true,
            Modifiers::none(),
        ),
        event(None, PhysKeyCode::KeyB, true, Modifiers::none()),
        KeyboardEvent::with_phys(PhysKeyCode::ShiftLeft, false),
    ];
    assert_eq!(
        Ok(vec![
            required(PhysKeyCode::ShiftLeft, true),
            required(PhysKeyCode::ShiftLeft, false)
        ]),
        prepare_pressed_keys(&events)
    );
    assert_eq!(Ok(vec![]), prepare_pressed_keys(&vec![]));
    let mut events = events;
    events.push(event(
        Some(KeyCode::Raw(38)),
        PhysKeyCode::KeyA,
        true,
        Modifiers::none(),
    ));
    assert_eq!(
        Err(KeyboardError::UnsupportedKeyCode),
        prepare_pressed_keys(&events)
    );
}

#[test]
fn raw_key_codes_run_from_8_to_255() {
    assert_eq!(
        Ok(EventType::KeyPress(Key::Unknown(8))),
        simulate_raw(8, true)
    );
    assert_eq!(
        Ok(EventType::KeyRelease(Key::Unknown(255))),
        simulate_raw(255, false)
    );
    assert_eq!(Err(KeyboardError::InvalidWireEvent), simulate_raw(7, true));
    assert_eq!(Err(KeyboardError::InvalidWireEvent), simulate_raw(256, true));
    assert_eq!(Err(KeyboardError::InvalidWireEvent), simulate_raw(0, false));
}

#[test]
fn characters_are_resolved_by_the_keyboard() {
    let keymap = HardwareKeymap {
        min_keycode: 38,
        keys: vec![HardwareKey {
            key: Key::KeyA,
            one_sym: 0x61,
            layouts: vec![vec![vec![0x61], vec![0x41], vec![0xe6]]],
        }],
        locked_layouts: vec![true],
    };
    let keyboard = XKeyboard::new(&keymap, 0);
    assert_eq!(
        Err(KeyboardError::KeymapUnavailable),
        resolve_keysym(None, 0x61)
    );
    assert_eq!(
        Err(KeyboardError::UnmappableKey),
        resolve_keysym(Some(&keyboard), 0x62)
    );
    assert_eq!(
        Ok(RawKeyboardEvent {
            phys: PhysKeyCode::KeyA,
            press: false,
            modifiers: Modifiers::shift(),
            sys_code: 0x41
        }),
        resolve_keysym(Some(&keyboard), 0x41)
    );
    assert_eq!(
        Err(KeyboardError::KeymapUnavailable),
        simulate_resolved_char(None, 0x41, Modifiers::none())
    );
    assert_eq!(
        Err(KeyboardError::UnmappableKey),
        simulate_resolved_char(Some(&keyboard), 0x7a, Modifiers::none())
    );
    assert_eq!(
        Ok(vec![
            required(PhysKeyCode::ShiftLeft, true),
            required(PhysKeyCode::KeyA, true),
            optional(PhysKeyCode::KeyA, false),
        ]),
        simulate_resolved_char(Some(&keyboard), 0x41, Modifiers::none())
    );
    assert_eq!(
        Ok(vec![
            required(PhysKeyCode::ControlLeft, false),
            required(PhysKeyCode::ControlRight, false),
            required(PhysKeyCode::AltRight, true),
            required(PhysKeyCode::KeyA, true),
            optional(PhysKeyCode::KeyA, false),
        ]),
        simulate_resolved_char(Some(&keyboard), 0xe6, Modifiers::ctrl())
    );
}

#[test]
fn the_active_modifiers_are_needed_only_where_they_are_reconciled() {
    let tab = event(
        Some(KeyCode::ControlKey(ControlKey::Tab)),
        PhysKeyCode::Tab,
        true,
        Modifiers::alt(),
    );
    assert!(needs_current_modifiers(&tab));
    let press = event(
        Some(KeyCode::Chr(0x61)),
        PhysKeyCode::KeyA,
        true,
        Modifiers::ctrl(),
    );
    assert!(needs_current_modifiers(&press));
    let not_needed = [
        event(
            Some(KeyCode::ControlKey(ControlKey::Shift)),
            PhysKeyCode::ShiftLeft,
            true,
            Modifiers::none(),
        ),
        event(
            Some(KeyCode::Chr(0x61)),
            PhysKeyCode::KeyA,
            false,
            Modifiers::ctrl(),
        ),
        event(
            Some(KeyCode::Chr(0xd800)),
            PhysKeyCode::KeyA,
            true,
            Modifiers::ctrl(),
        ),
        event(Some(KeyCode::Raw(5)), PhysKeyCode::KeyA, true, Modifiers::ctrl()),
        event(None, PhysKeyCode::KeyA, true, Modifiers::ctrl()),
        KeyboardEvent::with_phys(PhysKeyCode::KeyA, true),
    ];
    for keyboard_event in not_needed {
        assert!(!needs_current_modifiers(&keyboard_event));
        assert_eq!(
            simulate_keyboard_event(&keyboard_event, Modifiers::none()),
            simulate_keyboard_event(
                &keyboard_event,
                Modifiers::shift().union(Modifiers::caps())
            )
        );
    }
}

fn replay(steps: Vec<InjectStep>, injected: &[bool]) -> (Vec<InjectAction>, Result<(), KeyboardError>) {
    let mut replay = Replay::new(steps);
    let mut tried = Vec::new();
    let mut results = injected.iter();
    while let Some(action) = replay.next_action() {
        tried.push(action);
        let outcome = replay.report(*results.next().unwrap_or(&true));
        if outcome.is_err() {
            assert_eq!(None, replay.next_action());
            assert_eq!(Ok(()), replay.report(true));
            return (tried, outcome);
        }
    }
    assert_eq!(Ok(()), replay.report(false));
    (tried, Ok(()))
}

#[test]
fn a_replay_stops_at_the_first_required_step_that_fails() {
    let plan = vec![
        required(PhysKeyCode::ShiftLeft, false),
        required(PhysKeyCode::ShiftRight, false),
        required(PhysKeyCode::AltLeft, true),
        optional(PhysKeyCode::Tab, true),
        optional(PhysKeyCode::Tab, false),
    ];
    let actions: Vec<InjectAction> = plan.iter().map(|step| step.action).collect();
    assert_eq!((actions.clone(), Ok(())), replay(plan.clone(), &[]));
    // what was injected before the failure stays injected, the rest is
    // not tried
    assert_eq!(
        (
            actions[..3].to_vec(),
            Err(KeyboardError::InjectorFailure)
        ),
        replay(plan.clone(), &[true, true, false])
    );
    assert_eq!(
        (
            actions[..1].to_vec(),
            Err(KeyboardError::InjectorFailure)
        ),
        replay(plan.clone(), &[false, true, true])
    );
    // a step that is not required may fail
    assert_eq!(
        (actions.clone(), Ok(())),
        replay(plan.clone(), &[true, true, true, false, false])
    );
    assert_eq!((vec![], Ok(())), replay(vec![], &[]));
}
