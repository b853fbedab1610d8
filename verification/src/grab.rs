use vstd::prelude::*;
use vstd::string::*;
use crate::convert_map::{key_to_control, key_to_phys, KeyConvert};
use crate::error::KeyboardError;
use crate::event::{KeyCode, KeyboardEvent, RawKeyboardEvent};
use crate::key::Key;
use crate::keyboard_mode::KeyboardMode;
use crate::modifiers::Modifiers;
use crate::phys_key::PhysKeyCode;
use crate::wire::{key_code_of, KeyEvent, KeyEventUnion, RawKeyEvent};

verus! {

/// The scan code under which a keyboard reports its alternate-graphics
/// key.
pub const ALT_GR_SCAN_CODE: u32 = 57400;

/// What kind of input an event of the local machine is.
#[derive(Clone, Copy, Debug, PartialEq, Eq, Structural)]
pub enum EventType {
    /// A key went down.
    KeyPress(Key),
    /// A key came up.
    KeyRelease(Key),
    /// Anything that is not about a key.
    Other,
}

/// The text that a key produced, as the platform's input layer reports it.
#[derive(Clone, Debug, PartialEq, Eq)]
pub struct UnicodeInfo {
    /// The text, if the key produced any.
    pub name: Option<String>,
    /// Whether the key is a dead key, which only prepares the next one.
    pub is_dead: bool,
}

/// An input event of the local machine, as it is captured.
#[derive(Clone, Debug, PartialEq, Eq)]
pub struct Event {
    /// What happened.
    pub event_type: EventType,
    /// The text that the key produced, if the platform says.
    pub unicode: Option<UnicodeInfo>,
    /// The platform's code for the key.
    pub code: u32,
    /// The keyboard's code for the key's position.
    pub scan_code: u32,
}

/// The text that an event carries and that counts as typed: text of a
/// dead key does not.
pub open spec fn typed_text(event: Event) -> Option<String> {
    match event.unicode {
        Some(info) => if info.is_dead {
            None
        } else {
            info.name
        },
        None => None,
    }
}

/// Whether a text is a single character that takes one byte when it is
/// written out, which is to say one character below U+0080.
pub open spec fn is_single_byte(text: Seq<char>) -> bool {
    text.len() == 1 && (text[0] as u32) < 0x80
}

/// How an event names its key on the wire.
///
/// Typed text decides: a single one-byte character goes as its code
/// point, longer text goes as a sequence, and empty text is an error.
/// Without typed text the key goes as its logical key if it has one, and
/// unnamed if it has none.
pub open spec fn union_of(event: Event, key: Key) -> Result<Option<KeyEventUnion>, KeyboardError> {
    match typed_text(event) {
        Some(name) => if name@.len() == 0 {
            Err(KeyboardError::InvalidWireEvent)
        } else if is_single_byte(name@) {
            Ok(Some(KeyEventUnion::Unicode(name@[0] as u32)))
        } else {
            Ok(Some(KeyEventUnion::Sequence(name)))
        },
        None => match key_to_control(key) {
            Some(control_key) => Ok(Some(KeyEventUnion::ControlKey(control_key.spec_value() as i32))),
            None => Ok(None),
        },
    }
}

/// The modifiers to send with an event: those that are down, with the
/// pair of left control and right alt folded into alternate graphics where
/// the alternate-graphics key is known to be involved.
pub open spec fn sent_modifiers(event: Event, current: Modifiers, altgr_pressed: bool) -> Modifiers {
    if event.scan_code == ALT_GR_SCAN_CODE || altgr_pressed {
        current.spec_normalize_altgr()
    } else {
        current
    }
}

/// The wire event for a captured event.
///
/// `key` is the key at the event's position and `sys_code` the
/// platform's code for it, where it has one. The key must be known and
/// have a position, the typed text must not be empty, and the key must
/// have a system code, checked in this order.
pub open spec fn key_event_of(
    event: Event,
    key: Key,
    sys_code: Option<u32>,
    current: Modifiers,
    altgr_pressed: bool,
) -> Result<KeyEvent, KeyboardError> {
    if key is Unknown || key_to_phys(key) is None {
        Err(KeyboardError::UnmappableKey)
    } else {
        match union_of(event, key) {
            Err(error) => Err(error),
            Ok(union) => match sys_code {
                None => Err(KeyboardError::UnmappableKey),
                Some(code) => Ok(
                    KeyEvent {
                        down: event.spec_press(),
                        union,
                        raw_event: Some(
                            RawKeyEvent {
                                phys: key_to_phys(key)->0.spec_value() as i32,
                                press: event.spec_press(),
                                modifiers: sent_modifiers(event, current, altgr_pressed).bits,
                                sys_code: code,
                            },
                        ),
                        mode: KeyboardMode::Legacy,
                    },
                ),
            },
        }
    }
}

impl Event {
    /// Whether the event is the press of a key.
    pub open spec fn spec_press(&self) -> bool {
        self.event_type is KeyPress
    }

    /// Whether the event comes from the alternate-graphics key.
    pub open spec fn spec_is_altgr(&self) -> bool {
        self.scan_code == ALT_GR_SCAN_CODE
    }

    /// How the event names its key on the wire.
    fn union(&self, key: &Key) -> (union: Result<Option<KeyEventUnion>, KeyboardError>)
        ensures
            union == union_of(*self, *key),
    {
        if let Some(info) = &self.unicode {
            if !info.is_dead {
                if let Some(name) = &info.name {
                    let text: &str = name.as_str();
                    let count: usize = text.unicode_len();
                    if count == 0 {
                        return Err(KeyboardError::InvalidWireEvent);
                    }
                    let first: char = text.get_char(0);
                    if count == 1 && (first as u32) < 0x80 {
                        return Ok(Some(KeyEventUnion::Unicode(first as u32)));
                    }
                    return Ok(Some(KeyEventUnion::Sequence(name.clone())));
                }
            }
        }
        match key.to_control_key() {
            Ok(control_key) => Ok(Some(KeyEventUnion::ControlKey(control_key.value()))),
            Err(_) => Ok(None),
        }
    }
}

/// What a captured event tells of itself.
pub trait EventInfo {
    /// The key that the event is about.
    fn key(&self) -> Result<Key, KeyboardError>;

    /// Whether the event is the press of a key.
    fn press(&self) -> bool;

    /// Whether the event comes from the alternate-graphics key.
    fn is_altgr(&self) -> bool;
}

impl EventInfo for Event {
    /// The key that the event is about. An event that is not about a key
    /// has none.
    fn key(&self) -> (key: Result<Key, KeyboardError>)
        ensures
            match self.event_type {
                EventType::KeyPress(k) => key == Ok::<Key, KeyboardError>(k),
                EventType::KeyRelease(k) => key == Ok::<Key, KeyboardError>(k),
                EventType::Other => key == Err::<Key, KeyboardError>(
                    KeyboardError::InvalidWireEvent,
                ),
            },
    {
        match self.event_type {
            EventType::KeyPress(key) => Ok(key),
            EventType::KeyRelease(key) => Ok(key),
            EventType::Other => Err(KeyboardError::InvalidWireEvent),
        }
    }

    /// Tells whether the event is the press of a key.
    fn press(&self) -> (press: bool)
        ensures
            press == self.spec_press(),
    {
        match self.event_type {
            EventType::KeyPress(_) => true,
            EventType::KeyRelease(_) => false,
            EventType::Other => false,
        }
    }

    /// Tells whether the event comes from the alternate-graphics key.
    fn is_altgr(&self) -> (altgr: bool)
        ensures
            altgr == self.spec_is_altgr(),
    {
        self.scan_code == ALT_GR_SCAN_CODE
    }
}

impl KeyEvent {
    /// Makes the wire event for a captured event.
    ///
    /// `key` is the key at the event's position and `sys_code` the
    /// platform's code for that key, both as the platform's tables give
    /// them. `current` holds the modifiers that are down, and
    /// `altgr_pressed` says whether the alternate-graphics key is.
    ///
    /// The event names its key by the text it typed, or else by its
    /// logical key. Its physical action carries the key's position and
    /// the modifiers, with left control and right alt folded into
    /// alternate graphics where that key is involved.
    pub fn from_event(
        event: &Event,
        key: Key,
        sys_code: Option<u32>,
        current: Modifiers,
        altgr_pressed: bool,
    ) -> (key_event: Result<KeyEvent, KeyboardError>)
        ensures
            key_event == key_event_of(*event, key, sys_code, current, altgr_pressed),
    {
        let key: Key = match key.known() {
            Ok(key) => key,
            Err(error) => {
                return Err(error);
            },
        };
        let phys: PhysKeyCode = match key.to_phys() {
            Ok(phys) => phys,
            Err(error) => {
                return Err(error);
            },
        };
        let press: bool = event.press();
        let union: Option<KeyEventUnion> = match event.union(&key) {
            Ok(union) => union,
            Err(error) => {
                return Err(error);
            },
        };
        let modifiers: Modifiers = if event.is_altgr() || altgr_pressed {
            current.normalize_altgr()
        } else {
            current
        };
        let sys_code: u32 = match sys_code {
            Some(sys_code) => sys_code,
            None => {
                return Err(KeyboardError::UnmappableKey);
            },
        };
        Ok(
            KeyEvent {
                down: press,
                union,
                raw_event: Some(
                    RawKeyEvent { phys: phys.value(), press, modifiers: modifiers.bits(), sys_code },
                ),
                mode: KeyboardMode::Legacy,
            },
        )
    }
}

/// The keyboard event for a captured event and the wire event made from
/// it: the physical action is read off the captured event, with no
/// modifiers, and the key code off the wire event, where it is valid.
pub open spec fn keyboard_event_from(event: Event, sys_code: Option<u32>, key_event: KeyEvent) -> Result<
    KeyboardEvent,
    KeyboardError,
> {
    match event.event_type {
        EventType::Other => Err(KeyboardError::InvalidWireEvent),
        EventType::KeyPress(key) | EventType::KeyRelease(key) => match (
            key_to_phys(key),
            sys_code,
        ) {
            (Some(phys), Some(code)) => Ok(
                KeyboardEvent {
                    keycode: match key_code_of(key_event) {
                        Ok(keycode) => Some(keycode),
                        Err(_) => None,
                    },
                    press: event.spec_press(),
                    modifiers: Modifiers { bits: 0 },
                    raw_event: Some(
                        RawKeyboardEvent {
                            phys,
                            press: event.spec_press(),
                            modifiers: Modifiers { bits: 0 },
                            sys_code: code,
                        },
                    ),
                },
            ),
            _ => Err(KeyboardError::UnmappableKey),
        },
    }
}

impl KeyboardEvent {
    /// Puts a captured event and the wire event made from it together
    /// into the event that the local machine would replay.
    ///
    /// `sys_code` is the platform's code for the event's key, where it has
    /// one. The event must be about a key that has a position and a
    /// system code.
    pub fn from_events(event: &Event, sys_code: Option<u32>, key_event: &KeyEvent) -> (both: Result<
        KeyboardEvent,
        KeyboardError,
    >)
        ensures
            both == keyboard_event_from(*event, sys_code, *key_event),
    {
        let key: Key = match event.key() {
            Ok(key) => key,
            Err(error) => {
                return Err(error);
            },
        };
        let press: bool = event.press();
        let phys: PhysKeyCode = match key.to_phys() {
            Ok(phys) => phys,
            Err(error) => {
                return Err(error);
            },
        };
        let modifiers: Modifiers = Modifiers::none();
        let sys_code: u32 = match sys_code {
            Some(sys_code) => sys_code,
            None => {
                return Err(KeyboardError::UnmappableKey);
            },
        };
        let raw_event = RawKeyboardEvent { phys, press, modifiers, sys_code };
        let keycode: Option<KeyCode> = match KeyCode::from_key_event(key_event) {
            Ok(keycode) => Some(keycode),
            Err(_) => None,
        };
        Ok(KeyboardEvent { keycode, press, modifiers, raw_event: Some(raw_event) })
    }
}

} // verus!
