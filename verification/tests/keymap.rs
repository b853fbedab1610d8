use keyboard_impl::keymap::{HardwareKey, HardwareKeymap};
use keyboard_impl::{
    build_keysym_event_map, get_active_group_index, level_to_modifiers, GroupIndex, Key,
    Modifiers, PhysKeyCode, RawKeyboardEvent, XKeyboard,
};

const KEYSYM_A: u32 = 0x61;
const KEYSYM_UPPER_A: u32 = 0x41;
const KEYSYM_AT: u32 = 0x40;
const KEYSYM_Q: u32 = 0x71;
const KEYSYM_EURO: u32 = 0x20ac;

fn hardware_key(key: Key, one_sym: u32, levels: Vec<Vec<u32>>) -> HardwareKey {
    HardwareKey {
        key,
        one_sym,
        layouts: vec![levels],
    }
}

fn entry(phys: PhysKeyCode, modifiers: Modifiers, keysym: u32) -> RawKeyboardEvent {
    RawKeyboardEvent {
        phys,
        press: false,
        modifiers,
        sys_code: keysym,
    }
}

fn small_keymap() -> HardwareKeymap {
    HardwareKeymap {
        min_keycode: 8,
        keys: vec![
            // key code 8: produces nothing
            hardware_key(Key::Escape, 0, vec![]),
            // key code 9: q, and the at sign with alternate graphics
            hardware_key(
                Key::KeyQ,
                KEYSYM_Q,
                vec![vec![KEYSYM_Q], vec![], vec![KEYSYM_AT]],
            ),
            // key code 10: a at the base level and again at the third
            hardware_key(
                Key::KeyA,
                KEYSYM_A,
                vec![
                    vec![KEYSYM_A],
                    vec![KEYSYM_UPPER_A],
                    vec![KEYSYM_A],
                    vec![KEYSYM_EURO, KEYSYM_AT],
                ],
            ),
            // key code 11: a key without a position
            hardware_key(Key::Unknown(11), 0x99, vec![vec![0x99]]),
        ],
        locked_layouts: vec![true],
    }
}

#[test]
fn level_to_modifiers_knows_four_levels() {
    assert_eq!(Modifiers::none(), level_to_modifiers(0));
    assert_eq!(Modifiers::shift(), level_to_modifiers(1));
    assert_eq!(Modifiers::alt_gr(), level_to_modifiers(2));
    assert_eq!(
        Modifiers::shift().union(Modifiers::alt_gr()),
        level_to_modifiers(3)
    );
    assert_eq!(Modifiers::none(), level_to_modifiers(4));
    assert_eq!(Modifiers::none(), level_to_modifiers(u32::MAX));
}

#[test]
fn group_index_converts_to_and_from_numbers() {
    assert_eq!(GroupIndex::N1, GroupIndex::from(0));
    assert_eq!(GroupIndex::N2, GroupIndex::from(1));
    assert_eq!(GroupIndex::N3, GroupIndex::from(2));
    assert_eq!(GroupIndex::N4, GroupIndex::from(3));
    assert_eq!(GroupIndex::N4, GroupIndex::from(4));
    assert_eq!(GroupIndex::N4, GroupIndex::from(u32::MAX));
    assert_eq!(0u32, u32::from(GroupIndex::N1));
    assert_eq!(1u32, u32::from(GroupIndex::N2));
    assert_eq!(2u32, u32::from(GroupIndex::N3));
    assert_eq!(3u32, u32::from(GroupIndex::N4));
}

#[test]
fn the_locked_layout_is_the_active_one() {
    let mut keymap = small_keymap();
    keymap.locked_layouts = vec![];
    assert_eq!(GroupIndex::N1, get_active_group_index(&keymap));
    keymap.locked_layouts = vec![false, false, false];
    assert_eq!(GroupIndex::N1, get_active_group_index(&keymap));
    keymap.locked_layouts = vec![false, true, false];
    assert_eq!(GroupIndex::N2, get_active_group_index(&keymap));
    keymap.locked_layouts = vec![true, false, true, false];
    assert_eq!(GroupIndex::N3, get_active_group_index(&keymap));
    keymap.locked_layouts = vec![false, false, false, true];
    assert_eq!(GroupIndex::N4, get_active_group_index(&keymap));
    keymap.locked_layouts = vec![false, false, false, false, false, true];
    assert_eq!(GroupIndex::N4, get_active_group_index(&keymap));
}

#[test]
fn keymap_answers_for_keys_it_does_not_hold() {
    let keymap = small_keymap();
    assert_eq!(8, keymap.min_keycode());
    assert_eq!(Some(11), keymap.max_keycode());
    assert_eq!(0, keymap.num_levels_for_key(7, 0));
    assert_eq!(0, keymap.num_levels_for_key(12, 0));
    assert_eq!(0, keymap.num_levels_for_key(8, 0));
    assert_eq!(3, keymap.num_levels_for_key(9, 0));
    assert_eq!(0, keymap.num_levels_for_key(9, 1));
    assert_eq!(4, keymap.num_levels_for_key(10, 0));
    assert_eq!(Some(KEYSYM_Q), keymap.first_sym_by_level(9, 0, 0));
    assert_eq!(None, keymap.first_sym_by_level(9, 0, 1));
    assert_eq!(Some(KEYSYM_AT), keymap.first_sym_by_level(9, 0, 2));
    assert_eq!(None, keymap.first_sym_by_level(9, 0, 3));
    assert_eq!(Some(KEYSYM_EURO), keymap.first_sym_by_level(10, 0, 3));
    assert_eq!(None, keymap.first_sym_by_level(10, 1, 0));
    assert_eq!(KEYSYM_A, keymap.key_get_one_sym(10));
    assert_eq!(0, keymap.key_get_one_sym(8));
    assert_eq!(0, keymap.key_get_one_sym(500));
    assert_eq!(Some(PhysKeyCode::KeyA), keymap.phys_of(10));
    assert_eq!(None, keymap.phys_of(11));
    assert_eq!(None, keymap.phys_of(7));
    let empty = HardwareKeymap {
        min_keycode: 8,
        keys: vec![],
        locked_layouts: vec![],
    };
    assert_eq!(None, empty.max_keycode());
}

#[test]
fn the_lowest_level_of_a_key_is_recorded() {
    let keymap = small_keymap();
    let map = build_keysym_event_map(&keymap, 8, 11, 0);
    // a is reachable at level 0 and at level 2: the route without
    // modifiers is the one that is kept
    assert_eq!(
        Some(&entry(PhysKeyCode::KeyA, Modifiers::none(), KEYSYM_A)),
        map.get(&KEYSYM_A)
    );
    assert_eq!(
        Some(&entry(PhysKeyCode::KeyA, Modifiers::shift(), KEYSYM_UPPER_A)),
        map.get(&KEYSYM_UPPER_A)
    );
    assert_eq!(
        Some(&entry(PhysKeyCode::KeyQ, Modifiers::none(), KEYSYM_Q)),
        map.get(&KEYSYM_Q)
    );
    // only the first keysym of a level counts
    assert_eq!(
        Some(&entry(PhysKeyCode::KeyQ, Modifiers::alt_gr(), KEYSYM_AT)),
        map.get(&KEYSYM_AT)
    );
    assert_eq!(
        Some(&entry(
            PhysKeyCode::KeyA,
            Modifiers::shift().union(Modifiers::alt_gr()),
            KEYSYM_EURO
        )),
        map.get(&KEYSYM_EURO)
    );
    // a key without a position is passed over
    assert_eq!(None, map.get(&0x99));
    assert_eq!(5, map.len());
}

#[test]
fn of_two_keys_the_one_at_the_lower_level_is_recorded() {
    // key code 20 gives a without modifiers, key code 21 only with shift
    let keymap = HardwareKeymap {
        min_keycode: 20,
        keys: vec![
            hardware_key(Key::KeyA, KEYSYM_A, vec![vec![KEYSYM_A]]),
            hardware_key(Key::KeyB, KEYSYM_A, vec![vec![0x62], vec![KEYSYM_A]]),
        ],
        locked_layouts: vec![],
    };
    let map = build_keysym_event_map(&keymap, 20, 21, 0);
    assert_eq!(
        Some(&entry(PhysKeyCode::KeyA, Modifiers::none(), KEYSYM_A)),
        map.get(&KEYSYM_A)
    );
    assert_eq!(
        Some(&entry(PhysKeyCode::KeyB, Modifiers::none(), 0x62)),
        map.get(&0x62)
    );
    assert_eq!(2, map.len());
    let map = build_keysym_event_map(&keymap, 21, 21, 0);
    assert_eq!(
        Some(&entry(PhysKeyCode::KeyB, Modifiers::shift(), KEYSYM_A)),
        map.get(&KEYSYM_A)
    );
}

#[test]
fn the_base_level_wins_over_the_third_level_of_a_later_key() {
    // reachable at level 0 and at level 2, on one key or on two: the entry
    // holds no modifiers
    for base_first in [true, false] {
        let base = hardware_key(Key::KeyE, KEYSYM_EURO, vec![vec![KEYSYM_EURO]]);
        let third = hardware_key(
            Key::Num5,
            0x35,
            vec![vec![0x35], vec![0x25], vec![KEYSYM_EURO]],
        );
        let keys = if base_first {
            vec![base, third]
        } else {
            vec![third, base]
        };
        let keymap = HardwareKeymap {
            min_keycode: 10,
            keys,
            locked_layouts: vec![],
        };
        let map = build_keysym_event_map(&keymap, 10, 11, 0);
        assert_eq!(
            Some(&entry(PhysKeyCode::KeyE, Modifiers::none(), KEYSYM_EURO)),
            map.get(&KEYSYM_EURO)
        );
    }
    let keymap = HardwareKeymap {
        min_keycode: 10,
        keys: vec![hardware_key(
            Key::KeyE,
            KEYSYM_EURO,
            vec![vec![KEYSYM_EURO], vec![0x45], vec![KEYSYM_EURO]],
        )],
        locked_layouts: vec![],
    };
    let map = build_keysym_event_map(&keymap, 10, 10, 0);
    assert_eq!(
        Some(&entry(PhysKeyCode::KeyE, Modifiers::none(), KEYSYM_EURO)),
        map.get(&KEYSYM_EURO)
    );
}

#[test]
fn of_two_keys_at_one_level_the_higher_code_is_recorded() {
    let keymap = HardwareKeymap {
        min_keycode: 20,
        keys: vec![
            hardware_key(Key::KeyA, KEYSYM_A, vec![vec![0x31], vec![KEYSYM_A]]),
            hardware_key(Key::KeyB, KEYSYM_A, vec![vec![0x32], vec![KEYSYM_A]]),
            hardware_key(Key::KeyC, KEYSYM_A, vec![vec![0x33], vec![], vec![KEYSYM_A]]),
        ],
        locked_layouts: vec![],
    };
    let map = build_keysym_event_map(&keymap, 20, 22, 0);
    assert_eq!(
        Some(&entry(PhysKeyCode::KeyB, Modifiers::shift(), KEYSYM_A)),
        map.get(&KEYSYM_A)
    );
    let map = build_keysym_event_map(&keymap, 20, 20, 0);
    assert_eq!(
        Some(&entry(PhysKeyCode::KeyA, Modifiers::shift(), KEYSYM_A)),
        map.get(&KEYSYM_A)
    );
    let map = build_keysym_event_map(&keymap, 22, 22, 0);
    assert_eq!(
        Some(&entry(PhysKeyCode::KeyC, Modifiers::alt_gr(), KEYSYM_A)),
        map.get(&KEYSYM_A)
    );
}

#[test]
fn a_level_past_the_fourth_does_not_pass_for_the_base_level() {
    // the fifth level asks for no modifiers that are known, yet it is not
    // the simplest route
    let keymap = HardwareKeymap {
        min_keycode: 0,
        keys: vec![
            hardware_key(Key::KeyA, KEYSYM_A, vec![vec![0x31], vec![KEYSYM_A]]),
            hardware_key(
                Key::KeyB,
                0x32,
                vec![vec![0x32], vec![], vec![], vec![], vec![KEYSYM_A]],
            ),
        ],
        locked_layouts: vec![],
    };
    let map = build_keysym_event_map(&keymap, 0, 1, 0);
    assert_eq!(
        Some(&entry(PhysKeyCode::KeyA, Modifiers::shift(), KEYSYM_A)),
        map.get(&KEYSYM_A)
    );
}

#[test]
fn levels_past_the_fourth_are_recorded_without_modifiers() {
    let keymap = HardwareKeymap {
        min_keycode: 0,
        keys: vec![hardware_key(
            Key::KeyZ,
            0x7a,
            vec![vec![], vec![], vec![], vec![], vec![0x7a]],
        )],
        locked_layouts: vec![],
    };
    let map = build_keysym_event_map(&keymap, 0, u32::MAX, 0);
    assert_eq!(
        Some(&entry(PhysKeyCode::KeyZ, Modifiers::none(), 0x7a)),
        map.get(&0x7a)
    );
}

#[test]
fn the_table_is_built_for_the_layout_that_is_asked_for() {
    let keymap = HardwareKeymap {
        min_keycode: 38,
        keys: vec![HardwareKey {
            key: Key::KeyA,
            one_sym: KEYSYM_A,
            layouts: vec![vec![vec![KEYSYM_A]], vec![vec![0x6c6], vec![0x6e6]]],
        }],
        locked_layouts: vec![false, true],
    };
    let map = build_keysym_event_map(&keymap, 38, 38, 1);
    assert_eq!(None, map.get(&KEYSYM_A));
    assert_eq!(
        Some(&entry(PhysKeyCode::KeyA, Modifiers::shift(), 0x6e6)),
        map.get(&0x6e6)
    );
    assert!(build_keysym_event_map(&keymap, 38, 38, 2).is_empty());
    assert!(build_keysym_event_map(&keymap, 39, 38, 0).is_empty());
    assert!(build_keysym_event_map(&keymap, 0, 37, 0).is_empty());

    let keyboard = XKeyboard::new(&keymap, 3);
    assert_eq!(GroupIndex::N2, keyboard.active_group);
    assert_eq!(3, keyboard.device_id);
    assert_eq!(2, keyboard.keysym_event_map.len());
    assert_eq!(
        Some(&entry(PhysKeyCode::KeyA, Modifiers::none(), 0x6c6)),
        keyboard.keysym_event_map.get(&0x6c6)
    );
}

#[test]
fn a_keyboard_sorts_keys_by_what_they_produce() {
    let keyboard = XKeyboard::new(&small_keymap(), 0);
    assert_eq!(GroupIndex::N1, keyboard.active_group);
    assert_eq!(5, keyboard.keysym_event_map.len());
    // the last key of the keymap is left out of these two
    assert_eq!(vec![8], keyboard.unused_keycodes);
    assert_eq!(2, keyboard.keysym_keycode_map.len());
    assert_eq!(Some(&9), keyboard.keysym_keycode_map.get(&KEYSYM_Q));
    assert_eq!(Some(&10), keyboard.keysym_keycode_map.get(&KEYSYM_A));
    assert_eq!(None, keyboard.keysym_keycode_map.get(&0x99));

    let empty = HardwareKeymap {
        min_keycode: 8,
        keys: vec![],
        locked_layouts: vec![true],
    };
    let keyboard = XKeyboard::new(&empty, 1);
    assert!(keyboard.keysym_event_map.is_empty());
    assert!(keyboard.keysym_keycode_map.is_empty());
    assert!(keyboard.unused_keycodes.is_empty());
}

#[test]
fn of_two_keys_with_one_keysym_the_higher_code_is_recorded() {
    let keymap = HardwareKeymap {
        min_keycode: 100,
        keys: vec![
            hardware_key(Key::KeyA, KEYSYM_A, vec![]),
            hardware_key(Key::KeyB, 0, vec![]),
            hardware_key(Key::KeyC, KEYSYM_A, vec![]),
            hardware_key(Key::KeyD, 0, vec![]),
            hardware_key(Key::KeyE, KEYSYM_Q, vec![]),
        ],
        locked_layouts: vec![],
    };
    let keyboard = XKeyboard::new(&keymap, 0);
    assert_eq!(Some(&102), keyboard.keysym_keycode_map.get(&KEYSYM_A));
    assert_eq!(None, keyboard.keysym_keycode_map.get(&KEYSYM_Q));
    assert_eq!(vec![101, 103], keyboard.unused_keycodes);
}
