use keyboard_impl::enigo::{
    convert_to_tfc_key, get_led_state, led_is_on, select_backend, select_key_route,
    simulate_by_tfc, Backend, Key, KeyRoute, Led, TfcKey, TfcRequest,
};

#[test]
fn injector_keys_have_backend_names() {
    assert_eq!(Some(TfcKey::Alt), convert_to_tfc_key(Key::Alt));
    assert_eq!(Some(TfcKey::DeleteOrBackspace), convert_to_tfc_key(Key::Backspace));
    assert_eq!(Some(TfcKey::ForwardDelete), convert_to_tfc_key(Key::Delete));
    assert_eq!(Some(TfcKey::ReturnOrEnter), convert_to_tfc_key(Key::Return));
    assert_eq!(Some(TfcKey::N0), convert_to_tfc_key(Key::Numpad0));
    assert_eq!(Some(TfcKey::N9), convert_to_tfc_key(Key::Numpad9));
    assert_eq!(Some(TfcKey::NumpadDecimal), convert_to_tfc_key(Key::Decimal));
    assert_eq!(Some(TfcKey::NumpadClear), convert_to_tfc_key(Key::Clear));
    assert_eq!(Some(TfcKey::PlayPause), convert_to_tfc_key(Key::Pause));
    assert_eq!(Some(TfcKey::PrintScreen), convert_to_tfc_key(Key::Snapshot));
    assert_eq!(Some(TfcKey::ScrollLock), convert_to_tfc_key(Key::Scroll));
    assert_eq!(Some(TfcKey::NumpadPlus), convert_to_tfc_key(Key::Add));
    assert_eq!(Some(TfcKey::RightShift), convert_to_tfc_key(Key::RightShift));
    for key in [Key::RWin, Key::Command, Key::Super, Key::Windows, Key::Meta] {
        assert_eq!(Some(TfcKey::Meta), convert_to_tfc_key(key));
    }
    for key in [
        Key::Option,
        Key::Cancel,
        Key::Menu,
        Key::Kana,
        Key::Help,
        Key::Sleep,
        Key::Separator,
        Key::Function,
        Key::Layout('a'),
        Key::Raw(38),
    ] {
        assert_eq!(None, convert_to_tfc_key(key));
    }
}

#[test]
fn the_backend_types_characters_and_presses_named_keys() {
    assert_eq!(Some(TfcRequest::Char('é')), simulate_by_tfc(Key::Layout('é')));
    assert_eq!(Some(TfcRequest::Key(TfcKey::Tab)), simulate_by_tfc(Key::Tab));
    assert_eq!(None, simulate_by_tfc(Key::Kana));
    assert_eq!(None, simulate_by_tfc(Key::Raw(10)));
}

#[test]
fn backends_are_picked_in_order() {
    assert_eq!(Backend::Xdo, select_backend(true, false));
    assert_eq!(Backend::Xdo, select_backend(true, true));
    assert_eq!(Backend::Custom, select_backend(false, true));
    assert_eq!(Backend::Nothing, select_backend(false, false));

    assert_eq!(
        KeyRoute::Tfc(TfcRequest::Char('1')),
        select_key_route(true, true, false, Key::Layout('1'))
    );
    assert_eq!(
        KeyRoute::Tfc(TfcRequest::Key(TfcKey::Shift)),
        select_key_route(true, true, true, Key::Shift)
    );
    assert_eq!(KeyRoute::Xdo, select_key_route(true, true, true, Key::Kana));
    assert_eq!(KeyRoute::Xdo, select_key_route(true, false, true, Key::Shift));
    assert_eq!(KeyRoute::Xdo, select_key_route(true, false, false, Key::Layout('1')));
    assert_eq!(KeyRoute::Custom, select_key_route(false, true, true, Key::Shift));
    assert_eq!(KeyRoute::Nothing, select_key_route(false, true, false, Key::Shift));
}

#[test]
fn a_light_is_on_when_its_brightness_is_one() {
    for content in ["1", "1\n", "1 \t\r\n", "01", "+1", "+0001\n", "1\u{a0}"] {
        assert!(led_is_on(content), "{:?}", content);
        assert_eq!(
            content.trim_end().parse::<i32>().unwrap_or(0) == 1,
            led_is_on(content)
        );
    }
    for content in [
        "", "\n", "0", "0\n", "2", "10", "11", "-1", " 1", "\n1\n", "+", "+\n", "1a", "a1", "++1",
        "1+", "0x1", "1.0", "١", "+-1", "1 1",
    ] {
        assert!(!led_is_on(content), "{:?}", content);
        assert_eq!(
            content.trim_end().parse::<i32>().unwrap_or(0) == 1,
            led_is_on(content)
        );
    }
}

#[test]
fn only_lock_keys_have_a_light() {
    assert_eq!(Some(Led::CapsLock), Led::of(Key::CapsLock));
    assert_eq!(Some(Led::NumLock), Led::of(Key::NumLock));
    assert_eq!(None, Led::of(Key::Scroll));
    assert_eq!(None, Led::of(Key::Shift));
    assert_eq!(
        "/sys/class/leds/input1::capslock/brightness",
        Led::CapsLock.brightness_file()
    );
    assert_eq!(
        "/sys/class/leds/input1::numlock/brightness",
        Led::NumLock.brightness_file()
    );
    assert!(get_led_state(Key::CapsLock, Some("1\n")));
    assert!(get_led_state(Key::NumLock, Some("1")));
    assert!(!get_led_state(Key::NumLock, Some("0\n")));
    assert!(!get_led_state(Key::NumLock, None));
    assert!(!get_led_state(Key::Shift, Some("1\n")));
    assert!(!get_led_state(Key::Layout('1'), Some("1")));
}
