use vstd::prelude::*;
use crate::control_key::ControlKey;
use crate::error::KeyboardError;
use crate::event::{KeyCode, KeyboardEvent, RawKeyboardEvent};
use crate::keyboard_mode::KeyboardMode;
use crate::modifiers::{Modifiers, ALL};
use crate::phys_key::PhysKeyCode;

verus! {

/// The part of a key event on the wire that says which key it is about.
/// At most one of the four is sent.
#[derive(Clone, Debug, PartialEq, Eq)]
pub enum KeyEventUnion {
    /// The wire number of a logical key.
    ControlKey(i32),
    /// A code that only the sending platform can interpret.
    Chr(u32),
    /// A Unicode code point.
    Unicode(u32),
    /// Several characters at once.
    Sequence(String),
}

/// The physical action behind a key event, as it is sent.
#[derive(Clone, Copy, Debug, PartialEq, Eq, Structural)]
pub struct RawKeyEvent {
    /// The wire number of the key's position.
    pub phys: i32,
    /// `true` for a press, `false` for a release.
    pub press: bool,
    /// The bits of the modifiers that the sender wants active.
    pub modifiers: u32,
    /// The sending platform's own code for the key.
    pub sys_code: u32,
}

/// A key event as it is sent between the two ends of a session.
#[derive(Clone, Debug, PartialEq, Eq)]
pub struct KeyEvent {
    /// `true` for a press, `false` for a release.
    pub down: bool,
    /// Which key the event is about, if the sender could say.
    pub union: Option<KeyEventUnion>,
    /// The physical action behind the event, if the sender could say.
    pub raw_event: Option<RawKeyEvent>,
    /// How the sender wants the event to be read.
    pub mode: KeyboardMode,
}

/// The key code that a wire event names. An event that names no key, or a
/// logical key that does not exist, is not valid.
pub open spec fn key_code_of(event: KeyEvent) -> Result<KeyCode, KeyboardError> {
    match event.union {
        Some(KeyEventUnion::ControlKey(value)) => match ControlKey::spec_from_i32(value as int) {
            Some(control_key) => Ok(KeyCode::ControlKey(control_key)),
            None => Err(KeyboardError::InvalidWireEvent),
        },
        Some(KeyEventUnion::Chr(code)) => Ok(KeyCode::Raw(code)),
        Some(KeyEventUnion::Unicode(code_point)) => Ok(KeyCode::Chr(code_point)),
        Some(KeyEventUnion::Sequence(text)) => Ok(KeyCode::Sequence(text)),
        None => Err(KeyboardError::InvalidWireEvent),
    }
}

/// The physical action that a wire event names. A position that does not
/// exist, or modifier bits that stand for no modifier, make it invalid.
pub open spec fn raw_event_of(raw: RawKeyEvent) -> Result<RawKeyboardEvent, KeyboardError> {
    match PhysKeyCode::spec_from_i32(raw.phys as int) {
        Some(phys) => if raw.modifiers & !ALL == 0 {
            Ok(
                RawKeyboardEvent {
                    phys,
                    press: raw.press,
                    modifiers: Modifiers { bits: raw.modifiers },
                    sys_code: raw.sys_code,
                },
            )
        } else {
            Err(KeyboardError::InvalidWireEvent)
        },
        None => Err(KeyboardError::InvalidWireEvent),
    }
}

/// The keyboard event that a wire event stands for.
///
/// Where the physical action is sent, it has to be valid, and the key code
/// is kept if it is valid too. Where no physical action is sent, the key
/// code has to be valid. The event's own modifiers are left empty: the
/// modifiers that count are those of the physical action.
pub open spec fn keyboard_event_of(event: KeyEvent) -> Result<KeyboardEvent, KeyboardError> {
    match event.raw_event {
        Some(raw) => match raw_event_of(raw) {
            Ok(raw_event) => Ok(
                KeyboardEvent {
                    keycode: match key_code_of(event) {
                        Ok(keycode) => Some(keycode),
                        Err(_) => None,
                    },
                    press: event.down,
                    modifiers: Modifiers { bits: 0 },
                    raw_event: Some(raw_event),
                },
            ),
            Err(error) => Err(error),
        },
        None => match key_code_of(event) {
            Ok(keycode) => Ok(
                KeyboardEvent {
                    keycode: Some(keycode),
                    press: event.down,
                    modifiers: Modifiers { bits: 0 },
                    raw_event: None,
                },
            ),
            Err(error) => Err(error),
        },
    }
}

impl KeyCode {
    /// Reads the key code of a wire event.
    ///
    /// A logical key is checked against the keys that exist. The opaque
    /// code of the sending platform becomes `Raw`, a Unicode code point
    /// becomes `Chr`, and a sequence of characters is taken as it is. An
    /// event that names no key is refused.
    pub fn from_key_event(key_event: &KeyEvent) -> (keycode: Result<KeyCode, KeyboardError>)
        ensures
            keycode == key_code_of(*key_event),
    {
        match &key_event.union {
            Some(KeyEventUnion::ControlKey(value)) => match ControlKey::from_i32(*value) {
                Some(control_key) => Ok(KeyCode::ControlKey(control_key)),
                None => Err(KeyboardError::InvalidWireEvent),
            },
            Some(KeyEventUnion::Chr(code)) => Ok(KeyCode::Raw(*code)),
            Some(KeyEventUnion::Unicode(code_point)) => Ok(KeyCode::Chr(*code_point)),
            Some(KeyEventUnion::Sequence(text)) => Ok(KeyCode::Sequence(text.clone())),
            None => Err(KeyboardError::InvalidWireEvent),
        }
    }
}

impl RawKeyboardEvent {
    /// Reads the physical action of a wire event, checking that its
    /// position exists and that its modifier bits all stand for a modifier.
    pub fn from_raw_key_event(raw: &RawKeyEvent) -> (raw_event: Result<
        RawKeyboardEvent,
        KeyboardError,
    >)
        ensures
            raw_event == raw_event_of(*raw),
    {
        let phys: PhysKeyCode = match PhysKeyCode::from_i32(raw.phys) {
            Some(phys) => phys,
            None => {
                return Err(KeyboardError::InvalidWireEvent);
            },
        };
        let modifiers: Modifiers = match Modifiers::from_bits(raw.modifiers) {
            Some(modifiers) => modifiers,
            None => {
                return Err(KeyboardError::InvalidWireEvent);
            },
        };
        Ok(RawKeyboardEvent { phys, press: raw.press, modifiers, sys_code: raw.sys_code })
    }
}

impl KeyboardEvent {
    /// Turns a wire event into the event that is replayed.
    ///
    /// The physical action, where it is sent, must name a position that
    /// exists and modifiers that exist. The key code is kept where it is
    /// valid and dropped where it is not. An event with neither a valid key
    /// code nor a physical action is refused.
    pub fn from_key_event(key_event: &KeyEvent) -> (event: Result<KeyboardEvent, KeyboardError>)
        ensures
            event == keyboard_event_of(*key_event),
    {
        match &key_event.raw_event {
            Some(raw) => {
                let raw_event: RawKeyboardEvent = match RawKeyboardEvent::from_raw_key_event(raw) {
                    Ok(raw_event) => raw_event,
                    Err(error) => {
                        return Err(error);
                    },
                };
                let keycode: Option<KeyCode> = match KeyCode::from_key_event(key_event) {
                    Ok(keycode) => Some(keycode),
                    Err(_) => None,
                };
                Ok(
                    KeyboardEvent {
                        keycode,
                        press: key_event.down,
                        modifiers: Modifiers { bits: 0 },
                        raw_event: Some(raw_event),
                    },
                )
            },
            None => match KeyCode::from_key_event(key_event) {
                Ok(keycode) => Ok(
                    KeyboardEvent {
                        keycode: Some(keycode),
                        press: key_event.down,
                        modifiers: Modifiers { bits: 0 },
                        raw_event: None,
                    },
                ),
                Err(error) => Err(error),
            },
        }
    }
}

/// A wire event is refused exactly when it names a position or modifiers
/// that do not exist, or when it holds neither a physical action nor a
/// valid key code. What is accepted keeps the press flag, and holds a
/// physical action exactly when one was sent.
pub proof fn lemma_keyboard_event_of(event: KeyEvent)
    ensures
        keyboard_event_of(event) is Err <==> match event.raw_event {
            Some(raw) => PhysKeyCode::spec_from_i32(raw.phys as int) is None || raw.modifiers
                & !ALL != 0,
            None => key_code_of(event) is Err,
        },
        keyboard_event_of(event) matches Ok(accepted) ==> accepted.press == event.down && (
        accepted.raw_event is Some <==> event.raw_event is Some) && (accepted.raw_event matches Some(
            raw,
        ) ==> raw.modifiers.is_valid()),
{
}

} // verus!
