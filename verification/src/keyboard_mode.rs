use vstd::prelude::*;
use vstd::string::*;
use crate::text::str_equals;

verus! {

/// How the two ends of a session agree on what a keystroke means.
#[derive(Clone, Copy, Debug, PartialEq, Eq, Hash, Structural)]
pub enum KeyboardMode {
    /// Keys travel as logical keys and characters.
    Legacy,
    /// Keys travel as positions on the keyboard.
    Mapped,
    /// Keys travel as the characters they produce.
    Translate,
    /// The receiving end picks a mode for each session.
    Auto,
}

impl KeyboardMode {
    /// The lower-case name of the mode.
    pub open spec fn name(&self) -> Seq<char> {
        match self {
            KeyboardMode::Legacy => "legacy"@,
            KeyboardMode::Mapped => "map"@,
            KeyboardMode::Translate => "translate"@,
            KeyboardMode::Auto => "auto"@,
        }
    }

    /// The mode that a name stands for, if it is the name of a mode.
    pub open spec fn named(name: Seq<char>) -> Option<KeyboardMode> {
        if name == "legacy"@ {
            Some(KeyboardMode::Legacy)
        } else if name == "map"@ {
            Some(KeyboardMode::Mapped)
        } else if name == "translate"@ {
            Some(KeyboardMode::Translate)
        } else if name == "auto"@ {
            Some(KeyboardMode::Auto)
        } else {
            None
        }
    }

    /// All modes, in the order in which they are declared.
    pub fn iter() -> (modes: Vec<KeyboardMode>)
        ensures
            modes@ == seq![
                KeyboardMode::Legacy,
                KeyboardMode::Mapped,
                KeyboardMode::Translate,
                KeyboardMode::Auto,
            ],
    {
        let mut modes: Vec<KeyboardMode> = Vec::new();
        modes.push(KeyboardMode::Legacy);
        modes.push(KeyboardMode::Mapped);
        modes.push(KeyboardMode::Translate);
        modes.push(KeyboardMode::Auto);
        modes
    }

    /// The lower-case name of the mode, as it is written in settings.
    pub fn to_string(&self) -> (text: String)
        ensures
            text@ == self.name(),
    {
        match self {
            KeyboardMode::Legacy => String::from_str("legacy"),
            KeyboardMode::Mapped => String::from_str("map"),
            KeyboardMode::Translate => String::from_str("translate"),
            KeyboardMode::Auto => String::from_str("auto"),
        }
    }

    /// Reads a mode from its lower-case name. Any other text is refused.
    pub fn from_str(s: &str) -> (mode: Result<KeyboardMode, ()>)
        ensures
            KeyboardMode::named(s@) matches Some(m) ==> mode == Ok::<KeyboardMode, ()>(m),
            KeyboardMode::named(s@) is None ==> mode is Err,
    {
        if str_equals(s, "legacy") {
            Ok(KeyboardMode::Legacy)
        } else if str_equals(s, "map") {
            Ok(KeyboardMode::Mapped)
        } else if str_equals(s, "translate") {
            Ok(KeyboardMode::Translate)
        } else if str_equals(s, "auto") {
            Ok(KeyboardMode::Auto)
        } else {
            Err(())
        }
    }

    /// A mode is read back from its own name.
    pub proof fn lemma_name_round_trip(mode: KeyboardMode)
        ensures
            KeyboardMode::named(mode.name()) == Some(mode),
    {
        reveal_strlit("legacy");
        reveal_strlit("map");
        reveal_strlit("translate");
        reveal_strlit("auto");
        assert("legacy"@.len() == 6);
        assert("map"@.len() == 3);
        assert("translate"@.len() == 9);
        assert("auto"@.len() == 4);
    }
}

} // verus!
