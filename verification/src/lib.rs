//! Replaying on the local machine the keystrokes of a peer that may run
//! another system, another keyboard layout or another language.
//!
//! The library holds what can be decided without touching the machine: how
//! keys are named and translated, how sets of modifiers are compared and
//! brought into agreement, how a keyboard mapping is turned into a table
//! from characters to keys, and in which order key events have to be
//! injected to replay a keystroke. Reading the keyboard's state and
//! injecting the events is left to the caller.

pub mod char_code;
pub mod control_key;
pub mod convert_map;
pub mod debug_text;
pub mod describe;
pub mod enigo;
pub mod error;
pub mod event;
pub mod grab;
pub mod key;
pub mod key_map;
pub mod keyboard_mode;
pub mod keymap;
pub mod modifier_names;
pub mod modifiers;
pub mod phys_key;
pub mod reconcile;
pub mod simulate;
pub mod text;
pub mod wire;

pub use crate::char_code::CharCode;
pub use crate::control_key::ControlKey;
pub use crate::convert_map::{
    build_map, convert_control_key_to_key, convert_key_to_control_key, convert_key_to_phys,
    convert_phys_to_key, KeyConvert, MapType,
};
pub use crate::error::KeyboardError;
pub use crate::event::{KeyCode, KeyboardEvent, RawKeyboardEvent};
pub use crate::grab::{Event, EventInfo, EventType, UnicodeInfo};
pub use crate::key::Key;
pub use crate::keyboard_mode::KeyboardMode;
pub use crate::keymap::{
    build_keysym_event_map, get_active_group_index, level_to_modifiers, GroupIndex, HardwareKey,
    HardwareKeymap, XKeyboard,
};
pub use crate::modifiers::Modifiers;
pub use crate::phys_key::PhysKeyCode;
pub use crate::simulate::{
    needs_current_modifiers, prepare_pressed_keys, release_modifiers, resolve_keysym,
    simulate_char_without_modifiers, simulate_keyboard_event, simulate_phys, simulate_raw,
    simulate_resolved_char, InjectAction, InjectStep, Replay,
};
pub use crate::wire::{KeyEvent, KeyEventUnion, RawKeyEvent};
