use vstd::prelude::*;
use crate::control_key::ControlKey;
use crate::modifiers::Modifiers;
use crate::phys_key::PhysKeyCode;

verus! {

/// Which key an event is about. An event names its key in exactly one of
/// these ways.
#[derive(Clone, Debug, PartialEq, Eq)]
pub enum KeyCode {
    /// A logical key that both ends know by name.
    ControlKey(ControlKey),
    /// A Unicode code point.
    Chr(u32),
    /// A code that only the sending platform can interpret.
    Raw(u32),
    /// Several characters at once, as an input method produces them.
    Sequence(String),
    /// A position on the keyboard.
    PhysCode(PhysKeyCode),
}

/// One physical action on the keyboard, free of any platform's terms.
#[derive(Clone, Copy, Debug, PartialEq, Eq, Structural)]
pub struct RawKeyboardEvent {
    /// Where the key sits on an ANSI US keyboard.
    pub phys: PhysKeyCode,
    /// `true` for a press, `false` for a release.
    pub press: bool,
    /// The modifiers that the sender wants active with this action.
    pub modifiers: Modifiers,
    /// The sending platform's own code for the key: a virtual key on
    /// Windows, a keysym on Linux.
    pub sys_code: u32,
}

/// A keystroke to replay: the key, the action, and the physical action it
/// came from.
#[derive(Clone, Debug, PartialEq, Eq)]
pub struct KeyboardEvent {
    /// Which key the event is about, where that is known.
    pub keycode: Option<KeyCode>,
    /// `true` for a press, `false` for a release.
    pub press: bool,
    /// The modifiers that are down.
    pub modifiers: Modifiers,
    /// The physical action behind the event, where it is known.
    pub raw_event: Option<RawKeyboardEvent>,
}

impl RawKeyboardEvent {
    /// The action on `phys` that carries no modifiers and no system code.
    pub open spec fn spec_with_phys(phys: PhysKeyCode, press: bool) -> RawKeyboardEvent {
        RawKeyboardEvent { phys, press, modifiers: Modifiers { bits: 0 }, sys_code: 0 }
    }

    /// A press or release of the key at `phys`, with no modifiers and no
    /// system code.
    #[verifier::when_used_as_spec(spec_with_phys)]
    pub fn with_phys(phys: PhysKeyCode, press: bool) -> (event: RawKeyboardEvent)
        ensures
            event == RawKeyboardEvent::spec_with_phys(phys, press),
    {
        RawKeyboardEvent { phys, press, modifiers: Modifiers { bits: 0 }, sys_code: 0 }
    }
}

impl KeyboardEvent {
    /// A press or release that names its key by position alone: no
    /// modifiers, and no physical action behind it.
    pub fn with_phys(phys: PhysKeyCode, press: bool) -> (event: KeyboardEvent)
        ensures
            event.keycode == Some(KeyCode::PhysCode(phys)),
            event.press == press,
            event.modifiers == (Modifiers { bits: 0 }),
            event.raw_event is None,
    {
        KeyboardEvent {
            keycode: Some(KeyCode::PhysCode(phys)),
            press,
            modifiers: Modifiers { bits: 0 },
            raw_event: None,
        }
    }
}

} // verus!
