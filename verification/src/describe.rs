use vstd::prelude::*;
use vstd::string::*;
use crate::debug_text::{
    char_debug_text, char_from_u32, debug_char, debug_str, is_scalar_value, str_debug_text,
};
use crate::event::KeyCode;
use crate::modifiers::{Modifiers, ALL};
use crate::phys_key::PhysKeyCode;
use crate::text::{decimal, padded, push_decimal, push_padded, push_signed_decimal, signed_decimal};
use crate::wire::{key_code_of, KeyEvent, RawKeyEvent};

verus! {

/// The physical action that stands for one that was not sent: the first
/// position, a release, no modifiers and no system code.
pub open spec fn unsent_raw_event() -> RawKeyEvent {
    RawKeyEvent { phys: 0, press: false, modifiers: 0, sys_code: 0 }
}

/// How the wire number of a position is written: by the name of the
/// position, or as a number where it stands for none.
pub open spec fn phys_text(phys: i32) -> Seq<char> {
    match PhysKeyCode::spec_from_i32(phys as int) {
        Some(position) => position.spec_name(),
        None => signed_decimal(phys as int),
    }
}

/// How a truth value is written.
pub open spec fn bool_text(value: bool) -> Seq<char> {
    if value {
        "true"@
    } else {
        "false"@
    }
}

/// How the modifier bits of a wire event are written: by the names of the
/// modifiers, or `None` where the bits stand for no set.
pub open spec fn modifiers_text(bits: u32) -> Seq<char> {
    if bits & !ALL == 0 {
        (Modifiers { bits }).spec_to_string()
    } else {
        "None"@
    }
}

impl KeyCode {
    /// The key code written for a log: a logical key by its name, a
    /// character in quotes, a raw code as a number, a sequence as a quoted
    /// string, a position by its name. A code point that is no character
    /// is written `None`.
    pub open spec fn spec_to_string(&self) -> Seq<char> {
        match self {
            KeyCode::ControlKey(control_key) => control_key.spec_name(),
            KeyCode::Chr(code_point) => if is_scalar_value(*code_point) {
                "Chr("@ + char_debug_text(*code_point as char) + ")"@
            } else {
                "None"@
            },
            KeyCode::Raw(raw) => "Raw("@ + decimal(*raw as nat) + ")"@,
            KeyCode::Sequence(text) => "Seq("@ + str_debug_text(text@) + ")"@,
            KeyCode::PhysCode(phys) => "Phys("@ + phys.spec_name() + ")"@,
        }
    }

    /// Writes the key code for a log.
    pub fn to_string(&self) -> (text: String)
        ensures
            text@ == self.spec_to_string(),
    {
        match self {
            KeyCode::ControlKey(control_key) => String::from_str(control_key.name()),
            KeyCode::Chr(code_point) => match char_from_u32(*code_point) {
                Some(character) => {
                    let mut text: String = String::from_str("Chr(");
                    let shown: String = debug_char(character);
                    text.append(shown.as_str());
                    text.append(")");
                    text
                },
                None => String::from_str("None"),
            },
            KeyCode::Raw(raw) => {
                let mut text: String = String::from_str("Raw(");
                push_decimal(&mut text, *raw);
                text.append(")");
                text
            },
            KeyCode::Sequence(sequence) => {
                let mut text: String = String::from_str("Seq(");
                let shown: String = debug_str(sequence.as_str());
                text.append(shown.as_str());
                text.append(")");
                text
            },
            KeyCode::PhysCode(phys) => {
                let mut text: String = String::from_str("Phys(");
                text.append(phys.name());
                text.append(")");
                text
            },
        }
    }
}

/// A wire event written as one line for a log: the position, whether it
/// is a press, the key code, the system code and the modifiers, each after
/// its label and in a column of its own.
pub open spec fn event_line(event: KeyEvent) -> Seq<char> {
    let raw = match event.raw_event {
        Some(raw) => raw,
        None => unsent_raw_event(),
    };
    let keycode = match key_code_of(event) {
        Ok(keycode) => keycode.spec_to_string(),
        Err(_) => "None"@,
    };
    "PhysKeyCode="@ + padded(phys_text(raw.phys), 12) + " | press="@ + padded(
        bool_text(raw.press),
        5,
    ) + " | keycode="@ + padded(keycode, 12) + " | sys_code="@ + padded(
        decimal(raw.sys_code as nat),
        10,
    ) + " | modifiers="@ + modifiers_text(raw.modifiers)
}

impl KeyEvent {
    /// Writes the event as one line for a log.
    pub fn format(&self) -> (line: String)
        ensures
            line@ == event_line(*self),
    {
        let raw: RawKeyEvent = match self.raw_event {
            Some(raw) => raw,
            None => RawKeyEvent { phys: 0, press: false, modifiers: 0, sys_code: 0 },
        };
        let mut phys: String = String::new();
        match PhysKeyCode::from_i32(raw.phys) {
            Some(position) => {
                phys.append(position.name());
                assert(phys@ =~= phys_text(raw.phys));
            },
            None => {
                push_signed_decimal(&mut phys, raw.phys);
                assert(phys@ =~= phys_text(raw.phys));
            },
        }
        let keycode: String = match KeyCode::from_key_event(self) {
            Ok(keycode) => keycode.to_string(),
            Err(_) => String::from_str("None"),
        };
        let modifiers: String = match Modifiers::from_bits(raw.modifiers) {
            Some(modifiers) => modifiers.to_string(),
            None => String::from_str("None"),
        };
        let mut sys_code: String = String::new();
        push_decimal(&mut sys_code, raw.sys_code);
        assert(sys_code@ =~= decimal(raw.sys_code as nat));
        let mut line: String = String::from_str("PhysKeyCode=");
        push_padded(&mut line, phys.as_str(), 12);
        line.append(" | press=");
        push_padded(
            &mut line,
            if raw.press {
                "true"
            } else {
                "false"
            },
            5,
        );
        line.append(" | keycode=");
        push_padded(&mut line, keycode.as_str(), 12);
        line.append(" | sys_code=");
        push_padded(&mut line, sys_code.as_str(), 10);
        line.append(" | modifiers=");
        line.append(modifiers.as_str());
        line
    }
}

} // verus!
