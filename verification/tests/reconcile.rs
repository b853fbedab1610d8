use keyboard_impl::{Modifiers, PhysKeyCode, RawKeyboardEvent};

fn press(phys: PhysKeyCode) -> RawKeyboardEvent {
    RawKeyboardEvent::with_phys(phys, true)
}

fn release(phys: PhysKeyCode) -> RawKeyboardEvent {
    RawKeyboardEvent::with_phys(phys, false)
}

#[test]
fn test_modifiers() {
    let modifiers = Modifiers::get_current_modifiers(false, false, false, false);
    println!("{:?}", modifiers);
    assert_eq!(Modifiers::none(), modifiers);
}

#[test]
fn types_test_diff_modifiers() {
    let target_modifiers = Modifiers::left_alt();
    let modifiers = Modifiers::none();

    println!("{:?}", modifiers.diff_modifiers(&target_modifiers));
}

#[test]
fn event_test_diff_modifiers() {
    let target_modifiers = Modifiers::left_alt();
    let modifiers = Modifiers::none();

    assert_eq!(
        vec![RawKeyboardEvent {
            phys: PhysKeyCode::AltLeft,
            press: true,
            modifiers: Modifiers::none(),
            sys_code: 0,
        }],
        modifiers.diff_modifiers(&target_modifiers)
    );

    let target_modifiers = Modifiers::left_alt();
    let modifiers = Modifiers::left_alt();

    assert_eq!(
        Vec::<RawKeyboardEvent>::new(),
        modifiers.diff_modifiers(&target_modifiers)
    );

    let target_modifiers = Modifiers::none();
    let modifiers = Modifiers::left_alt();

    assert_eq!(
        vec![
            RawKeyboardEvent {
                phys: PhysKeyCode::AltLeft,
                press: false,
                modifiers: Modifiers::none(),
                sys_code: 0,
            },
            RawKeyboardEvent {
                phys: PhysKeyCode::AltRight,
                press: false,
                modifiers: Modifiers::none(),
                sys_code: 0,
            }
        ],
        modifiers.diff_modifiers(&target_modifiers)
    );
}

#[test]
fn diff_of_a_set_with_itself_is_empty() {
    for bits in 0u32..0x4000 {
        if let Some(m) = Modifiers::from_bits(bits) {
            assert_eq!(Vec::<RawKeyboardEvent>::new(), m.diff_modifiers(&m));
        }
    }
}

#[test]
fn diff_taps_a_lock_that_differs() {
    assert_eq!(
        vec![press(PhysKeyCode::CapsLock), release(PhysKeyCode::CapsLock)],
        Modifiers::none().diff_modifiers(&Modifiers::caps())
    );
    assert_eq!(
        vec![press(PhysKeyCode::CapsLock), release(PhysKeyCode::CapsLock)],
        Modifiers::caps().diff_modifiers(&Modifiers::none())
    );
    assert_eq!(
        vec![press(PhysKeyCode::NumLock), release(PhysKeyCode::NumLock)],
        Modifiers::num().diff_modifiers(&Modifiers::none())
    );
    assert_eq!(
        Vec::<RawKeyboardEvent>::new(),
        Modifiers::caps().diff_modifiers(&Modifiers::caps())
    );
}

#[test]
fn diff_releases_the_alt_gr_key_twice() {
    assert_eq!(
        vec![release(PhysKeyCode::AltRight), release(PhysKeyCode::AltRight)],
        Modifiers::alt_gr().diff_modifiers(&Modifiers::none())
    );
    assert_eq!(
        vec![press(PhysKeyCode::AltRight)],
        Modifiers::none().diff_modifiers(&Modifiers::alt_gr())
    );
}

#[test]
fn diff_keeps_the_fixed_order() {
    let all = Modifiers::caps()
        .union(Modifiers::num())
        .union(Modifiers::shift())
        .union(Modifiers::ctrl())
        .union(Modifiers::alt())
        .union(Modifiers::meta())
        .union(Modifiers::alt_gr());
    assert_eq!(
        vec![
            press(PhysKeyCode::CapsLock),
            release(PhysKeyCode::CapsLock),
            press(PhysKeyCode::NumLock),
            release(PhysKeyCode::NumLock),
            press(PhysKeyCode::ShiftLeft),
            press(PhysKeyCode::ControlLeft),
            press(PhysKeyCode::AltLeft),
            press(PhysKeyCode::MetaLeft),
            press(PhysKeyCode::AltRight),
        ],
        Modifiers::none().diff_modifiers(&all)
    );
    assert_eq!(
        vec![
            press(PhysKeyCode::CapsLock),
            release(PhysKeyCode::CapsLock),
            press(PhysKeyCode::NumLock),
            release(PhysKeyCode::NumLock),
            release(PhysKeyCode::ShiftLeft),
            release(PhysKeyCode::ShiftRight),
            release(PhysKeyCode::ControlLeft),
            release(PhysKeyCode::ControlRight),
            release(PhysKeyCode::AltLeft),
            release(PhysKeyCode::AltRight),
            release(PhysKeyCode::MetaLeft),
            release(PhysKeyCode::MetaRight),
            release(PhysKeyCode::AltRight),
            release(PhysKeyCode::AltRight),
        ],
        all.diff_modifiers(&Modifiers::none())
    );
}

#[test]
fn diff_reads_both_sides_in_logical_form() {
    let current = Modifiers::right_shift().union(Modifiers::left_ctrl());
    let target = Modifiers::shift().union(Modifiers::right_alt());
    assert_eq!(
        vec![
            release(PhysKeyCode::ControlLeft),
            release(PhysKeyCode::ControlRight),
            press(PhysKeyCode::AltLeft),
        ],
        current.diff_modifiers(&target)
    );
}

#[test]
fn diff_is_not_symmetric() {
    let there = Modifiers::none().diff_modifiers(&Modifiers::ctrl());
    let back = Modifiers::ctrl().diff_modifiers(&Modifiers::none());
    assert_eq!(1, there.len());
    assert_eq!(2, back.len());
}

/// A keyboard as far as modifiers go: the keys that are down and the two
/// locks.
#[derive(Clone, Debug, PartialEq)]
struct Keyboard {
    down: Vec<PhysKeyCode>,
    caps: bool,
    num: bool,
}

impl Keyboard {
    fn showing(modifiers: Modifiers, right_side: bool) -> Keyboard {
        let logical = modifiers.trans_positional_mods();
        let mut down = Vec::new();
        for (flag, left, right) in [
            (Modifiers::shift(), PhysKeyCode::ShiftLeft, PhysKeyCode::ShiftRight),
            (Modifiers::ctrl(), PhysKeyCode::ControlLeft, PhysKeyCode::ControlRight),
            (Modifiers::alt(), PhysKeyCode::AltLeft, PhysKeyCode::AltRight),
            (Modifiers::meta(), PhysKeyCode::MetaLeft, PhysKeyCode::MetaRight),
        ] {
            if logical.contains(flag) {
                down.push(if right_side { right } else { left });
            }
        }
        Keyboard {
            down,
            caps: logical.contains(Modifiers::caps()),
            num: logical.contains(Modifiers::num()),
        }
    }

    fn replay(&mut self, events: &[RawKeyboardEvent]) {
        for event in events {
            match event.phys {
                PhysKeyCode::CapsLock => self.caps ^= event.press,
                PhysKeyCode::NumLock => self.num ^= event.press,
                phys => {
                    self.down.retain(|key| *key != phys);
                    if event.press {
                        self.down.push(phys);
                    }
                }
            }
        }
    }

    fn shows(&self, modifiers: Modifiers) -> bool {
        let logical = modifiers.trans_positional_mods();
        let held = |left: PhysKeyCode, right: PhysKeyCode| {
            self.down.contains(&left) || self.down.contains(&right)
        };
        logical.contains(Modifiers::caps()) == self.caps
            && logical.contains(Modifiers::num()) == self.num
            && logical.contains(Modifiers::shift())
                == held(PhysKeyCode::ShiftLeft, PhysKeyCode::ShiftRight)
            && logical.contains(Modifiers::ctrl())
                == held(PhysKeyCode::ControlLeft, PhysKeyCode::ControlRight)
            && logical.contains(Modifiers::alt())
                == held(PhysKeyCode::AltLeft, PhysKeyCode::AltRight)
            && logical.contains(Modifiers::meta())
                == held(PhysKeyCode::MetaLeft, PhysKeyCode::MetaRight)
    }
}

#[test]
fn replaying_the_diff_brings_the_keyboard_to_the_target() {
    let without_alt_gr: Vec<Modifiers> = (0u32..0x2000)
        .step_by(2)
        .filter_map(Modifiers::from_bits)
        .collect();
    for current in without_alt_gr.iter().step_by(37) {
        for target in without_alt_gr.iter().step_by(41) {
            for right_side in [false, true] {
                let mut keyboard = Keyboard::showing(*current, right_side);
                assert!(keyboard.shows(*current));
                keyboard.replay(&current.diff_modifiers(target));
                assert!(keyboard.shows(*target), "{:?} -> {:?}", current, target);
            }
        }
    }
}

#[test]
fn alternate_graphics_shares_its_key_with_alt() {
    // alt goes and takes the right alt key with it, which alternate
    // graphics would have needed held
    let current = Modifiers::alt().union(Modifiers::alt_gr());
    let target = Modifiers::alt_gr();
    assert_eq!(
        vec![release(PhysKeyCode::AltLeft), release(PhysKeyCode::AltRight)],
        current.diff_modifiers(&target)
    );
}
