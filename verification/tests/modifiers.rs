use keyboard_impl::modifiers::{
    ALL, ALT, ALT_GR, CAPS, CTRL, LEFT_ALT, LEFT_CTRL, LEFT_SHIFT, META, NUM, POSITIONAL,
    RIGHT_ALT, RIGHT_CTRL, RIGHT_SHIFT, SHIFT,
};
use keyboard_impl::Modifiers;

#[test]
fn flags_have_their_bits() {
    assert_eq!(0, Modifiers::none().bits());
    assert_eq!(1 << 1, Modifiers::shift().bits());
    assert_eq!(1 << 2, Modifiers::alt().bits());
    assert_eq!(1 << 3, Modifiers::ctrl().bits());
    assert_eq!(1 << 4, Modifiers::meta().bits());
    assert_eq!(1 << 5, Modifiers::left_alt().bits());
    assert_eq!(1 << 6, Modifiers::right_alt().bits());
    assert_eq!(1 << 7, Modifiers::left_ctrl().bits());
    assert_eq!(1 << 8, Modifiers::right_ctrl().bits());
    assert_eq!(1 << 9, Modifiers::left_shift().bits());
    assert_eq!(1 << 10, Modifiers::right_shift().bits());
    assert_eq!(1 << 11, Modifiers::caps().bits());
    assert_eq!(1 << 12, Modifiers::num().bits());
    assert_eq!(1 << 13, Modifiers::alt_gr().bits());
    assert_eq!(
        ALL,
        SHIFT | ALT | CTRL | META | POSITIONAL | CAPS | NUM | ALT_GR
    );
    assert_eq!(
        POSITIONAL,
        LEFT_ALT | RIGHT_ALT | LEFT_CTRL | RIGHT_CTRL | LEFT_SHIFT | RIGHT_SHIFT
    );
}

#[test]
fn from_bits_accepts_only_modifier_bits() {
    assert_eq!(Some(Modifiers::none()), Modifiers::from_bits(0));
    assert_eq!(Some(Modifiers::alt()), Modifiers::from_bits(4));
    assert_eq!(0x3ffe, Modifiers::from_bits(0x3ffe).unwrap().bits());
    assert_eq!(None, Modifiers::from_bits(1));
    assert_eq!(None, Modifiers::from_bits(0x4000));
    assert_eq!(None, Modifiers::from_bits(u32::MAX));
}

#[test]
fn contains_union_difference() {
    let held = Modifiers::shift().union(Modifiers::left_ctrl());
    assert!(held.contains(Modifiers::shift()));
    assert!(held.contains(Modifiers::left_ctrl()));
    assert!(held.contains(Modifiers::none()));
    assert!(!held.contains(Modifiers::ctrl()));
    assert!(!held.contains(Modifiers::shift().union(Modifiers::alt())));
    assert!(held.contains_bits(SHIFT | LEFT_CTRL));
    assert_eq!(Modifiers::shift(), held.difference(Modifiers::left_ctrl()));
    assert_eq!(held, held.difference(Modifiers::meta()));
    assert!(Modifiers::none().is_empty());
    assert!(!held.is_empty());
}

#[test]
fn trans_positional_mods_reduces_each_side() {
    assert_eq!(Modifiers::alt(), Modifiers::left_alt().trans_positional_mods());
    assert_eq!(Modifiers::alt(), Modifiers::right_alt().trans_positional_mods());
    assert_eq!(Modifiers::ctrl(), Modifiers::left_ctrl().trans_positional_mods());
    assert_eq!(Modifiers::ctrl(), Modifiers::right_ctrl().trans_positional_mods());
    assert_eq!(Modifiers::shift(), Modifiers::left_shift().trans_positional_mods());
    assert_eq!(Modifiers::shift(), Modifiers::right_shift().trans_positional_mods());
    assert_eq!(
        Modifiers::alt(),
        Modifiers::alt()
            .union(Modifiers::left_alt())
            .union(Modifiers::right_alt())
            .trans_positional_mods()
    );
    let mixed = Modifiers::left_shift()
        .union(Modifiers::right_ctrl())
        .union(Modifiers::meta())
        .union(Modifiers::caps())
        .union(Modifiers::alt_gr());
    let logical = Modifiers::shift()
        .union(Modifiers::ctrl())
        .union(Modifiers::meta())
        .union(Modifiers::caps())
        .union(Modifiers::alt_gr());
    assert_eq!(logical, mixed.trans_positional_mods());
    assert_eq!(Modifiers::none(), Modifiers::none().trans_positional_mods());
    assert_eq!(Modifiers::meta(), Modifiers::meta().trans_positional_mods());
}

#[test]
fn trans_positional_mods_is_idempotent() {
    for bits in 0u32..0x4000 {
        if let Some(m) = Modifiers::from_bits(bits) {
            let once = m.trans_positional_mods();
            assert_eq!(once, once.trans_positional_mods());
            assert_eq!(0, once.bits() & POSITIONAL);
            assert!(Modifiers::from_bits(once.bits()).is_some());
        }
    }
}

#[test]
fn is_shortcut_wants_control_alt_or_meta() {
    assert!(Modifiers::ctrl().is_shortcut());
    assert!(Modifiers::alt().is_shortcut());
    assert!(Modifiers::left_ctrl().is_shortcut());
    assert!(Modifiers::left_alt().is_shortcut());
    assert!(Modifiers::right_ctrl().is_shortcut());
    assert!(Modifiers::right_alt().is_shortcut());
    assert!(Modifiers::meta().is_shortcut());
    assert!(Modifiers::shift().union(Modifiers::meta()).is_shortcut());
    assert!(!Modifiers::none().is_shortcut());
    assert!(!Modifiers::shift().is_shortcut());
    assert!(!Modifiers::left_shift().is_shortcut());
    assert!(!Modifiers::caps().union(Modifiers::num()).is_shortcut());
    assert!(!Modifiers::alt_gr().is_shortcut());
}

#[test]
fn normalize_altgr_folds_left_control_and_right_alt() {
    let pair = Modifiers::left_ctrl().union(Modifiers::right_alt());
    assert_eq!(Modifiers::alt_gr(), pair.normalize_altgr());
    assert_eq!(
        Modifiers::alt_gr().union(Modifiers::shift()),
        pair.union(Modifiers::shift()).normalize_altgr()
    );
    assert_eq!(Modifiers::left_ctrl(), Modifiers::left_ctrl().normalize_altgr());
    assert_eq!(Modifiers::right_alt(), Modifiers::right_alt().normalize_altgr());
    assert_eq!(
        Modifiers::right_ctrl().union(Modifiers::right_alt()),
        Modifiers::right_ctrl().union(Modifiers::right_alt()).normalize_altgr()
    );
    assert_eq!(Modifiers::none(), Modifiers::none().normalize_altgr());
}

#[test]
fn get_current_modifiers_sets_one_bit_for_each_key() {
    assert_eq!(
        Modifiers::shift(),
        Modifiers::get_current_modifiers(true, false, false, false)
    );
    assert_eq!(
        Modifiers::ctrl(),
        Modifiers::get_current_modifiers(false, true, false, false)
    );
    assert_eq!(
        Modifiers::alt(),
        Modifiers::get_current_modifiers(false, false, true, false)
    );
    assert_eq!(
        Modifiers::meta(),
        Modifiers::get_current_modifiers(false, false, false, true)
    );
    assert_eq!(
        0x1e,
        Modifiers::get_current_modifiers(true, true, true, true).bits()
    );
}

#[test]
fn keyboard_state_gives_positional_bits() {
    let mut states = [0u8; 256];
    assert_eq!(Modifiers::none(), Modifiers::from_keyboard_state(&states));
    states[0xa0] = 0x80;
    assert!(Modifiers::is_pressed(&states, 0xa0));
    assert!(!Modifiers::is_pressed(&states, 0xa1));
    assert_eq!(Modifiers::left_shift(), Modifiers::from_keyboard_state(&states));
    states[0xa0] = 0x7f;
    assert!(!Modifiers::is_pressed(&states, 0xa0));
    assert_eq!(Modifiers::none(), Modifiers::from_keyboard_state(&states));
    states[0xa1] = 0x81;
    states[0xa2] = 0xff;
    states[0xa3] = 0x80;
    states[0xa4] = 0x80;
    states[0xa5] = 0x80;
    assert_eq!(
        RIGHT_SHIFT | LEFT_CTRL | RIGHT_CTRL | LEFT_ALT | RIGHT_ALT,
        Modifiers::from_keyboard_state(&states).bits()
    );
    let mut states = [0u8; 256];
    states[0x5b] = 0x80;
    assert_eq!(Modifiers::meta(), Modifiers::from_keyboard_state(&states));
    let mut states = [0u8; 256];
    states[0x5c] = 0x80;
    assert_eq!(Modifiers::meta(), Modifiers::from_keyboard_state(&states));
    let mut states = [0x80u8; 256];
    states[0x10] = 0x80;
    assert_eq!(
        POSITIONAL | META,
        Modifiers::from_keyboard_state(&states).bits()
    );
}

#[test]
fn to_string_joins_names_by_bars() {
    assert_eq!("NONE", Modifiers::none().to_string());
    assert_eq!("SHIFT", Modifiers::shift().to_string());
    assert_eq!("ALT_GR", Modifiers::alt_gr().to_string());
    assert_eq!(
        "SHIFT|CTRL|LEFT_ALT|NUM",
        Modifiers::num()
            .union(Modifiers::left_alt())
            .union(Modifiers::ctrl())
            .union(Modifiers::shift())
            .to_string()
    );
    assert_eq!(
        "SHIFT|ALT|CTRL|META|LEFT_ALT|RIGHT_ALT|LEFT_CTRL|RIGHT_CTRL|LEFT_SHIFT|RIGHT_SHIFT|CAPS|NUM|ALT_GR",
        Modifiers::from_bits(ALL).unwrap().to_string()
    );
}

fn parse(text: &str) -> Modifiers {
    Modifiers::try_from(text.to_string()).unwrap()
}

#[test]
fn names_are_read_back() {
    assert_eq!(Modifiers::none(), parse("NONE"));
    assert_eq!(Modifiers::none(), parse(""));
    assert_eq!(Modifiers::shift(), parse("SHIFT"));
    assert_eq!(Modifiers::alt_gr(), parse("ALT_GR"));
    assert_eq!(Modifiers::left_alt(), parse("LEFT_ALT"));
    assert_eq!(
        Modifiers::shift().union(Modifiers::ctrl()),
        parse("CTRL|SHIFT")
    );
    assert_eq!(
        Modifiers::shift().union(Modifiers::ctrl()),
        parse("  SHIFT |\tCTRL\n")
    );
    assert_eq!(Modifiers::caps(), parse("CAPS|CAPS|NONE"));
    assert_eq!(Modifiers::num(), parse("|NUM|"));
    assert_eq!(Modifiers::meta(), parse("\u{a0}META\u{3000}"));
}

#[test]
fn words_that_name_no_modifier_are_passed_over() {
    assert_eq!(Modifiers::none(), parse("shift"));
    assert_eq!(Modifiers::none(), parse("SHIFTS"));
    assert_eq!(Modifiers::none(), parse("SHIFT CTRL"));
    assert_eq!(Modifiers::none(), parse("SHI|FT"));
    assert_eq!(Modifiers::none(), parse("LEFT ALT"));
    assert_eq!(Modifiers::none(), parse("ALT,CTRL"));
    assert_eq!(Modifiers::alt(), parse("FOO|ALT|BAR"));
    assert_eq!(Modifiers::alt(), parse("ALT|LEFT_"));
    assert_eq!(Modifiers::none(), parse("|||"));
}

#[test]
fn every_set_is_read_back_from_its_text() {
    for bits in 0u32..0x4000 {
        if let Some(m) = Modifiers::from_bits(bits) {
            assert_eq!(m, parse(&m.to_string()));
        }
    }
}

#[test]
fn the_default_set_is_empty() {
    assert_eq!(Modifiers::none(), Modifiers::default());
}

#[test]
fn the_text_of_a_set_names_its_modifiers_only() {
    let m = Modifiers::left_ctrl().union(Modifiers::caps());
    assert_eq!("LEFT_CTRL|CAPS", m.to_string());
    assert_eq!(m, parse("LEFT_CTRL|CAPS"));
    // the name of one modifier is not read out of the name of another
    assert_eq!(Modifiers::left_alt(), parse("LEFT_ALT"));
    assert_eq!(Modifiers::alt_gr(), parse("ALT_GR"));
    assert_eq!(Modifiers::right_shift(), parse("RIGHT_SHIFT"));
}
