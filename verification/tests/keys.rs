use keyboard_impl::{
    build_map, convert_control_key_to_key, convert_key_to_control_key, convert_key_to_phys,
    convert_phys_to_key, CharCode, ControlKey, Key, KeyConvert, KeyboardError, KeyboardMode,
    MapType, PhysKeyCode,
};

fn all_control_keys() -> Vec<ControlKey> {
    (-5..200).filter_map(ControlKey::from_i32).collect()
}

#[test]
fn test_chr_code() {
    // Left Shift: win -> linux: pos_code=50, sys_code=160
    let chr_code = CharCode::from_u32(10485810);
    assert_eq!(50, chr_code.get_pos_code());
    assert_eq!(160, chr_code.get_sys_code());
}

#[test]
fn test_phys_to_key() {
    assert_eq!(convert_phys_to_key(&PhysKeyCode::AltLeft), Some(Key::Alt));
}

#[test]
fn char_code_packs_two_halves() {
    assert_eq!(10_485_810, CharCode::new(50, 160).value());
    assert_eq!(10_485_810, CharCode::from_u32(10_485_810).value());
    assert_eq!(0, CharCode::new(0, 0).value());
    assert_eq!(0xffff_ffff, CharCode::new(0xffff, 0xffff).value());
    assert_eq!(0x0001_0002, CharCode::new(2, 1).value());
}

#[test]
fn char_code_cuts_each_half_to_16_bits() {
    let code = CharCode::new(0x0001_0032, 0x0003_00a0);
    assert_eq!(0x32, code.get_pos_code());
    assert_eq!(0xa0, code.get_sys_code());
    assert_eq!(0x00a0_0032, code.value());
}

#[test]
fn is_modifier_holds_for_the_eight_modifier_keys() {
    let modifiers = [
        ControlKey::Control,
        ControlKey::Meta,
        ControlKey::Alt,
        ControlKey::Shift,
        ControlKey::RControl,
        ControlKey::RWin,
        ControlKey::RAlt,
        ControlKey::RShift,
    ];
    let all = all_control_keys();
    assert_eq!(78, all.len());
    for key in all {
        assert_eq!(modifiers.contains(&key), key.is_modifier(), "{:?}", key);
    }
    assert!(!ControlKey::Tab.is_modifier());
    assert!(!ControlKey::CapsLock.is_modifier());
}

#[test]
fn swap_modifier_is_an_involution() {
    assert_eq!(ControlKey::Meta, ControlKey::Control.swap_modifier());
    assert_eq!(ControlKey::Control, ControlKey::Meta.swap_modifier());
    assert_eq!(ControlKey::RWin, ControlKey::RControl.swap_modifier());
    assert_eq!(ControlKey::RControl, ControlKey::RWin.swap_modifier());
    let swapped = [
        ControlKey::Control,
        ControlKey::Meta,
        ControlKey::RControl,
        ControlKey::RWin,
    ];
    for key in all_control_keys() {
        assert_eq!(key, key.swap_modifier().swap_modifier());
        if !swapped.contains(&key) {
            assert_eq!(key, key.swap_modifier());
        } else {
            assert_ne!(key, key.swap_modifier());
        }
    }
}

#[test]
fn control_keys_have_fixed_wire_numbers() {
    assert_eq!(0, ControlKey::Unknown.value());
    assert_eq!(1, ControlKey::Alt.value());
    assert_eq!(4, ControlKey::Control.value());
    assert_eq!(23, ControlKey::Meta.value());
    assert_eq!(29, ControlKey::Shift.value());
    assert_eq!(31, ControlKey::Tab.value());
    assert_eq!(64, ControlKey::RWin.value());
    assert_eq!(75, ControlKey::RAlt.value());
    assert_eq!(100, ControlKey::CtrlAltDel.value());
    assert_eq!(101, ControlKey::LockScreen.value());
    assert_eq!(Some(ControlKey::Tab), ControlKey::from_i32(31));
    assert_eq!(None, ControlKey::from_i32(-1));
    assert_eq!(None, ControlKey::from_i32(76));
    assert_eq!(None, ControlKey::from_i32(99));
    assert_eq!(None, ControlKey::from_i32(102));
    assert_eq!(None, ControlKey::from_i32(i32::MAX));
    for key in all_control_keys() {
        assert_eq!(Some(key), ControlKey::from_i32(key.value()));
    }
}

#[test]
fn phys_key_codes_are_numbered_from_zero() {
    assert_eq!(0, PhysKeyCode::AltLeft.value());
    assert_eq!(118, PhysKeyCode::VolumeMute.value());
    assert_eq!(None, PhysKeyCode::from_i32(-1));
    assert_eq!(None, PhysKeyCode::from_i32(119));
    for value in 0..119 {
        let phys = PhysKeyCode::from_i32(value).unwrap();
        assert_eq!(value, phys.value());
    }
}

#[test]
fn native_key_swaps_control_and_meta() {
    assert_eq!(Key::MetaLeft, Key::ControlLeft.swap_modifier());
    assert_eq!(Key::ControlLeft, Key::MetaLeft.swap_modifier());
    assert_eq!(Key::MetaRight, Key::ControlRight.swap_modifier());
    assert_eq!(Key::ControlRight, Key::MetaRight.swap_modifier());
    assert_eq!(Key::Tab, Key::Tab.swap_modifier());
    assert_eq!(Key::Unknown(7), Key::Unknown(7).swap_modifier());
}

#[test]
fn unknown_keys_are_refused() {
    assert_eq!(Ok(Key::ShiftLeft), Key::ShiftLeft.known());
    assert_eq!(Err(KeyboardError::UnmappableKey), Key::Unknown(50).known());
}

#[test]
fn positions_and_native_keys_translate_both_ways() {
    assert_eq!(Some(Key::AltGr), convert_phys_to_key(&PhysKeyCode::AltRight));
    assert_eq!(Some(Key::Tab), convert_phys_to_key(&PhysKeyCode::Tab));
    assert_eq!(Some(Key::Apps), convert_phys_to_key(&PhysKeyCode::Menu));
    assert_eq!(Some(Key::F20), convert_phys_to_key(&PhysKeyCode::F20));
    assert_eq!(Some(PhysKeyCode::AltLeft), convert_key_to_phys(&Key::Alt));
    assert_eq!(Some(PhysKeyCode::Tab), convert_key_to_phys(&Key::Tab));
    assert_eq!(Some(PhysKeyCode::Menu), convert_key_to_phys(&Key::Apps));
    assert_eq!(None, convert_key_to_phys(&Key::Unknown(50)));
    assert_eq!(None, convert_key_to_phys(&Key::Kana));
    assert_eq!(Ok(Key::Tab), Key::from_phys(&PhysKeyCode::Tab));
    assert_eq!(Ok(PhysKeyCode::KeyA), Key::KeyA.to_phys());
    assert_eq!(Err(KeyboardError::UnmappableKey), Key::Hangul.to_phys());
}

#[test]
fn the_last_pair_of_the_list_decides() {
    // Three positions give the native delete key; the last of them is
    // found when the key is looked up.
    assert_eq!(Some(Key::Delete), convert_phys_to_key(&PhysKeyCode::Delete));
    assert_eq!(Some(Key::Delete), convert_phys_to_key(&PhysKeyCode::DownArrow));
    assert_eq!(Some(Key::Delete), convert_phys_to_key(&PhysKeyCode::KpDelete));
    assert_eq!(Some(PhysKeyCode::KpDelete), convert_key_to_phys(&Key::Delete));
    assert_eq!(None, convert_key_to_phys(&Key::DownArrow));
    assert_eq!(None, convert_key_to_phys(&Key::KpDelete));
    // One logical key is paired with two native keys.
    assert_eq!(Some(Key::Hanji), convert_control_key_to_key(&ControlKey::Hanja));
    assert_eq!(Some(ControlKey::Hanja), convert_key_to_control_key(&Key::Hanja));
    assert_eq!(Some(ControlKey::Hanja), convert_key_to_control_key(&Key::Hanji));
}

#[test]
fn every_position_found_for_a_key_leads_back() {
    for value in 0..119 {
        let phys = PhysKeyCode::from_i32(value).unwrap();
        let key = convert_phys_to_key(&phys).unwrap();
        let back = convert_key_to_phys(&key).unwrap();
        assert_eq!(Some(key), convert_phys_to_key(&back));
    }
}

#[test]
fn logical_keys_and_native_keys_translate_both_ways() {
    assert_eq!(Some(Key::Alt), convert_control_key_to_key(&ControlKey::Alt));
    assert_eq!(Some(Key::AltGr), convert_control_key_to_key(&ControlKey::RAlt));
    assert_eq!(Some(Key::ControlLeft), convert_control_key_to_key(&ControlKey::Control));
    assert_eq!(Some(Key::MetaRight), convert_control_key_to_key(&ControlKey::RWin));
    assert_eq!(Some(Key::PrintScreen), convert_control_key_to_key(&ControlKey::Snapshot));
    assert_eq!(Some(Key::KpPlus), convert_control_key_to_key(&ControlKey::Add));
    assert_eq!(None, convert_control_key_to_key(&ControlKey::Unknown));
    assert_eq!(None, convert_control_key_to_key(&ControlKey::Kanji));
    assert_eq!(None, convert_control_key_to_key(&ControlKey::CtrlAltDel));
    assert_eq!(Some(ControlKey::Tab), convert_key_to_control_key(&Key::Tab));
    assert_eq!(Some(ControlKey::Scroll), convert_key_to_control_key(&Key::ScrollLock));
    assert_eq!(None, convert_key_to_control_key(&Key::KeyA));
    assert_eq!(None, convert_key_to_control_key(&Key::Unknown(1)));
    assert_eq!(Ok(ControlKey::Return), Key::Return.to_control_key());
    assert_eq!(Err(KeyboardError::UnmappableKey), Key::KeyQ.to_control_key());
    for key in all_control_keys() {
        if key == ControlKey::Hanja {
            continue;
        }
        if let Some(native) = convert_control_key_to_key(&key) {
            assert_eq!(Some(key), convert_key_to_control_key(&native));
        }
    }
}

#[test]
fn keyboard_modes_have_names() {
    assert_eq!(
        vec![
            KeyboardMode::Legacy,
            KeyboardMode::Mapped,
            KeyboardMode::Translate,
            KeyboardMode::Auto
        ],
        KeyboardMode::iter()
    );
    assert_eq!("legacy", KeyboardMode::Legacy.to_string());
    assert_eq!("map", KeyboardMode::Mapped.to_string());
    assert_eq!("translate", KeyboardMode::Translate.to_string());
    assert_eq!("auto", KeyboardMode::Auto.to_string());
    for mode in KeyboardMode::iter() {
        assert_eq!(Ok(mode), KeyboardMode::from_str(&mode.to_string()));
    }
    assert_eq!(Err(()), KeyboardMode::from_str("Legacy"));
    assert_eq!(Err(()), KeyboardMode::from_str(""));
    assert_eq!(Err(()), KeyboardMode::from_str("maps"));
    assert_eq!(Err(()), KeyboardMode::from_str("ma"));
}

#[test]
fn char_code_is_written_with_both_codes() {
    assert_eq!(
        "(PosCode=50, SysCode=160)",
        CharCode::from_u32(10485810).to_string()
    );
    assert_eq!("(PosCode=0, SysCode=0)", CharCode::new(0, 0).to_string());
    assert_eq!(
        "(PosCode=65535, SysCode=65535)",
        CharCode::from_u32(u32::MAX).to_string()
    );
    assert_eq!("(PosCode=10, SysCode=9)", CharCode::new(10, 9).to_string());
    assert_eq!(
        "(PosCode=1009, SysCode=12345)",
        CharCode::new(1009, 12345).to_string()
    );
}

#[test]
fn a_map_is_built_in_either_direction() {
    let pairs: [(u32, u64); 4] = [(1, 10), (2, 20), (1, 30), (3, 20)];
    match build_map(&pairs, false) {
        MapType::Forward(map) => {
            assert_eq!(3, map.len());
            assert_eq!(Some(&30), map.get(&1));
            assert_eq!(Some(&20), map.get(&2));
            assert_eq!(Some(&20), map.get(&3));
            assert_eq!(None, map.get(&4));
        }
        MapType::Reverse(_) => panic!("asked for the forward map"),
    }
    match build_map(&pairs, true) {
        MapType::Reverse(map) => {
            assert_eq!(3, map.len());
            assert_eq!(Some(&1), map.get(&10));
            assert_eq!(Some(&3), map.get(&20));
            assert_eq!(Some(&1), map.get(&30));
            assert_eq!(None, map.get(&1));
        }
        MapType::Forward(_) => panic!("asked for the reverse map"),
    }
    let none: [(u32, u32); 0] = [];
    match build_map(&none, false) {
        MapType::Forward(map) => assert!(map.is_empty()),
        MapType::Reverse(_) => panic!("asked for the forward map"),
    }
}

#[test]
fn the_lookups_are_the_maps_of_their_pairs() {
    let pairs = [
        (ControlKey::Hanja, Key::Hanja),
        (ControlKey::Hanja, Key::Hanji),
        (ControlKey::Tab, Key::Tab),
    ];
    match build_map(&pairs, false) {
        MapType::Forward(map) => {
            for (control_key, _) in pairs {
                assert_eq!(
                    convert_control_key_to_key(&control_key).as_ref(),
                    map.get(&control_key)
                );
            }
        }
        MapType::Reverse(_) => panic!("asked for the forward map"),
    }
    match build_map(&pairs, true) {
        MapType::Reverse(map) => {
            for (_, key) in pairs {
                assert_eq!(convert_key_to_control_key(&key).as_ref(), map.get(&key));
            }
        }
        MapType::Forward(_) => panic!("asked for the reverse map"),
    }
}
