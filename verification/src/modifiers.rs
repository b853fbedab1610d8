use vstd::prelude::*;
use vstd::string::*;

verus! {

/// Bit of the logical shift modifier.
pub const SHIFT: u32 = 0x0002;

/// Bit of the logical alt modifier.
pub const ALT: u32 = 0x0004;

/// Bit of the logical control modifier.
pub const CTRL: u32 = 0x0008;

/// Bit of the meta modifier.
pub const META: u32 = 0x0010;

/// Bit of the left alt key.
pub const LEFT_ALT: u32 = 0x0020;

/// Bit of the right alt key.
pub const RIGHT_ALT: u32 = 0x0040;

/// Bit of the left control key.
pub const LEFT_CTRL: u32 = 0x0080;

/// Bit of the right control key.
pub const RIGHT_CTRL: u32 = 0x0100;

/// Bit of the left shift key.
pub const LEFT_SHIFT: u32 = 0x0200;

/// Bit of the right shift key.
pub const RIGHT_SHIFT: u32 = 0x0400;

/// Bit of the caps lock state.
pub const CAPS: u32 = 0x0800;

/// Bit of the num lock state.
pub const NUM: u32 = 0x1000;

/// Bit of the alternate-graphics modifier.
pub const ALT_GR: u32 = 0x2000;

/// Every bit that stands for a modifier.
pub const ALL: u32 = 0x3ffe;

/// The six bits that name one side of the keyboard.
pub const POSITIONAL: u32 = 0x07e0;

/// A set of keyboard modifiers, held as one bit per modifier.
///
/// Shift, alt and control exist in three forms each: a logical bit, which
/// says that the modifier is active, and one bit for each side of the
/// keyboard, which says which key is down. A set may hold both forms at
/// once; [`Modifiers::trans_positional_mods`] reduces it to the logical
/// form.
#[derive(Clone, Copy, Debug, PartialEq, Eq, Hash, Structural)]
pub struct Modifiers {
    pub bits: u32,
}

/// The logical bit `logical` if `bits` holds the bit of either side, else
/// nothing.
pub open spec fn logical_if_either(bits: u32, left: u32, right: u32, logical: u32) -> u32 {
    if bits & left == left || bits & right == right {
        logical
    } else {
        0
    }
}

/// The logical form of `bits`: no positional bit is left, each logical bit
/// is set if it or one of its two sides was, and every other bit is as it
/// was.
pub open spec fn reduce_positional(bits: u32) -> u32 {
    (bits & !POSITIONAL) | logical_if_either(bits, LEFT_ALT, RIGHT_ALT, ALT) | logical_if_either(
        bits,
        LEFT_CTRL,
        RIGHT_CTRL,
        CTRL,
    ) | logical_if_either(bits, LEFT_SHIFT, RIGHT_SHIFT, SHIFT)
}

/// `bits` with the pair of left control and right alt, where both are set,
/// replaced by alternate graphics.
pub open spec fn fold_alt_gr(bits: u32) -> u32 {
    if bits & LEFT_CTRL == LEFT_CTRL && bits & RIGHT_ALT == RIGHT_ALT {
        (bits & !LEFT_CTRL & !RIGHT_ALT) | ALT_GR
    } else {
        bits
    }
}

/// Whether the high bit of the entry for `vk_code` is set in a table of
/// key states.
pub open spec fn state_is_down(states: Seq<u8>, vk_code: int) -> bool {
    states[vk_code] & 0x80 != 0
}

/// The bit `mask` if the key `vk_code` is down in `states`, else nothing.
pub open spec fn bit_if_down(states: Seq<u8>, vk_code: int, mask: u32) -> u32 {
    if state_is_down(states, vk_code) {
        mask
    } else {
        0
    }
}

/// Virtual-key code of the left shift key.
pub const VK_LSHIFT: i32 = 0xa0;

/// Virtual-key code of the right shift key.
pub const VK_RSHIFT: i32 = 0xa1;

/// Virtual-key code of the left control key.
pub const VK_LCONTROL: i32 = 0xa2;

/// Virtual-key code of the right control key.
pub const VK_RCONTROL: i32 = 0xa3;

/// Virtual-key code of the left alt key.
pub const VK_LMENU: i32 = 0xa4;

/// Virtual-key code of the right alt key.
pub const VK_RMENU: i32 = 0xa5;

/// Virtual-key code of the left meta key.
pub const VK_LWIN: i32 = 0x5b;

/// Virtual-key code of the right meta key.
pub const VK_RWIN: i32 = 0x5c;

/// The modifier bits that a table of virtual-key states stands for: one
/// positional bit for each shift, control and alt key that is down, and the
/// meta bit if either meta key is.
pub open spec fn bits_of_keyboard_state(states: Seq<u8>) -> u32 {
    bit_if_down(states, VK_LSHIFT as int, LEFT_SHIFT) | bit_if_down(
        states,
        VK_RSHIFT as int,
        RIGHT_SHIFT,
    ) | bit_if_down(states, VK_LCONTROL as int, LEFT_CTRL) | bit_if_down(
        states,
        VK_RCONTROL as int,
        RIGHT_CTRL,
    ) | bit_if_down(states, VK_LMENU as int, LEFT_ALT) | bit_if_down(
        states,
        VK_RMENU as int,
        RIGHT_ALT,
    ) | bit_if_down(states, VK_LWIN as int, META) | bit_if_down(states, VK_RWIN as int, META)
}

impl Default for Modifiers {
    /// The empty set.
    fn default() -> (m: Modifiers)
        ensures
            m.bits == 0,
            m.is_valid(),
    {
        proof {
            lemma_flags_are_valid();
        }
        Modifiers { bits: 0 }
    }
}

/// Whether `mask` is the bit of one modifier.
pub open spec fn is_flag(mask: u32) -> bool {
    mask == SHIFT || mask == ALT || mask == CTRL || mask == META || mask == LEFT_ALT || mask
        == RIGHT_ALT || mask == LEFT_CTRL || mask == RIGHT_CTRL || mask == LEFT_SHIFT || mask
        == RIGHT_SHIFT || mask == CAPS || mask == NUM || mask == ALT_GR
}

/// The bit `mask` if `held`, else nothing.
pub open spec fn bit_if(held: bool, mask: u32) -> u32 {
    if held {
        mask
    } else {
        0
    }
}

/// `text` with `label` added if `held`: as it is where `text` is empty,
/// after a bar where it is not.
pub open spec fn with_label(text: Seq<char>, held: bool, label: Seq<char>) -> Seq<char> {
    if !held {
        text
    } else if text.len() == 0 {
        label
    } else {
        text + seq!['|'] + label
    }
}

impl Modifiers {
    /// Whether every bit of `mask` is set.
    pub open spec fn has(self, mask: u32) -> bool {
        self.bits & mask == mask
    }

    /// Whether only bits that stand for a modifier are set.
    pub open spec fn is_valid(self) -> bool {
        self.bits & !ALL == 0
    }

    /// Whether every modifier of `other` is in this set.
    pub open spec fn spec_contains(&self, other: Modifiers) -> bool {
        self.has(other.bits)
    }

    /// Whether a modifier that turns a keystroke into a shortcut is set:
    /// control, alt or meta, in any form.
    pub open spec fn spec_is_shortcut(&self) -> bool {
        self.has(CTRL) || self.has(ALT) || self.has(LEFT_CTRL) || self.has(LEFT_ALT) || self.has(
            RIGHT_CTRL,
        ) || self.has(RIGHT_ALT) || self.has(META)
    }

    /// The logical form of this set.
    pub open spec fn spec_trans_positional_mods(self) -> Modifiers {
        Modifiers { bits: reduce_positional(self.bits) }
    }

    /// This set with left control and right alt, where both are held,
    /// replaced by alternate graphics.
    pub open spec fn spec_normalize_altgr(&self) -> Modifiers {
        Modifiers { bits: fold_alt_gr(self.bits) }
    }

    /// The names of the modifiers of this set, joined by bars in the order
    /// of their bits, or `NONE` for the empty set.
    pub open spec fn spec_to_string(&self) -> Seq<char> {
        let text = if self.bits == 0 {
            "NONE"@
        } else {
            Seq::empty()
        };
        let text = with_label(text, self.has(SHIFT), "SHIFT"@);
        let text = with_label(text, self.has(ALT), "ALT"@);
        let text = with_label(text, self.has(CTRL), "CTRL"@);
        let text = with_label(text, self.has(META), "META"@);
        let text = with_label(text, self.has(LEFT_ALT), "LEFT_ALT"@);
        let text = with_label(text, self.has(RIGHT_ALT), "RIGHT_ALT"@);
        let text = with_label(text, self.has(LEFT_CTRL), "LEFT_CTRL"@);
        let text = with_label(text, self.has(RIGHT_CTRL), "RIGHT_CTRL"@);
        let text = with_label(text, self.has(LEFT_SHIFT), "LEFT_SHIFT"@);
        let text = with_label(text, self.has(RIGHT_SHIFT), "RIGHT_SHIFT"@);
        let text = with_label(text, self.has(CAPS), "CAPS"@);
        let text = with_label(text, self.has(NUM), "NUM"@);
        with_label(text, self.has(ALT_GR), "ALT_GR"@)
    }

    /// The modifiers that the four logical key states stand for.
    pub open spec fn spec_get_current_modifiers(
        shift: bool,
        ctrl: bool,
        alt: bool,
        meta: bool,
    ) -> Modifiers {
        Modifiers {
            bits: bit_if(shift, SHIFT) | bit_if(ctrl, CTRL) | bit_if(alt, ALT) | bit_if(meta, META),
        }
    }

    /// The empty set.
    pub fn none() -> (m: Modifiers)
        ensures
            m.bits == 0,
            m.is_valid(),
    {
        proof {
            lemma_flags_are_valid();
        }
        Modifiers { bits: 0 }
    }

    /// The logical shift modifier.
    pub fn shift() -> (m: Modifiers)
        ensures
            m.bits == SHIFT,
            m.is_valid(),
    {
        proof {
            lemma_flags_are_valid();
        }
        Modifiers { bits: SHIFT }
    }

    /// The logical alt modifier.
    pub fn alt() -> (m: Modifiers)
        ensures
            m.bits == ALT,
            m.is_valid(),
    {
        proof {
            lemma_flags_are_valid();
        }
        Modifiers { bits: ALT }
    }

    /// The logical control modifier.
    pub fn ctrl() -> (m: Modifiers)
        ensures
            m.bits == CTRL,
            m.is_valid(),
    {
        proof {
            lemma_flags_are_valid();
        }
        Modifiers { bits: CTRL }
    }

    /// The meta modifier.
    pub fn meta() -> (m: Modifiers)
        ensures
            m.bits == META,
            m.is_valid(),
    {
        proof {
            lemma_flags_are_valid();
        }
        Modifiers { bits: META }
    }

    /// The left alt key.
    pub fn left_alt() -> (m: Modifiers)
        ensures
            m.bits == LEFT_ALT,
            m.is_valid(),
    {
        proof {
            lemma_flags_are_valid();
        }
        Modifiers { bits: LEFT_ALT }
    }

    /// The right alt key.
    pub fn right_alt() -> (m: Modifiers)
        ensures
            m.bits == RIGHT_ALT,
            m.is_valid(),
    {
        proof {
            lemma_flags_are_valid();
        }
        Modifiers { bits: RIGHT_ALT }
    }

    /// The left control key.
    pub fn left_ctrl() -> (m: Modifiers)
        ensures
            m.bits == LEFT_CTRL,
            m.is_valid(),
    {
        proof {
            lemma_flags_are_valid();
        }
        Modifiers { bits: LEFT_CTRL }
    }

    /// The right control key.
    pub fn right_ctrl() -> (m: Modifiers)
        ensures
            m.bits == RIGHT_CTRL,
            m.is_valid(),
    {
        proof {
            lemma_flags_are_valid();
        }
        Modifiers { bits: RIGHT_CTRL }
    }

    /// The left shift key.
    pub fn left_shift() -> (m: Modifiers)
        ensures
            m.bits == LEFT_SHIFT,
            m.is_valid(),
    {
        proof {
            lemma_flags_are_valid();
        }
        Modifiers { bits: LEFT_SHIFT }
    }

    /// The right shift key.
    pub fn right_shift() -> (m: Modifiers)
        ensures
            m.bits == RIGHT_SHIFT,
            m.is_valid(),
    {
        proof {
            lemma_flags_are_valid();
        }
        Modifiers { bits: RIGHT_SHIFT }
    }

    /// The caps lock state.
    pub fn caps() -> (m: Modifiers)
        ensures
            m.bits == CAPS,
            m.is_valid(),
    {
        proof {
            lemma_flags_are_valid();
        }
        Modifiers { bits: CAPS }
    }

    /// The num lock state.
    pub fn num() -> (m: Modifiers)
        ensures
            m.bits == NUM,
            m.is_valid(),
    {
        proof {
            lemma_flags_are_valid();
        }
        Modifiers { bits: NUM }
    }

    /// The alternate-graphics modifier.
    pub fn alt_gr() -> (m: Modifiers)
        ensures
            m.bits == ALT_GR,
            m.is_valid(),
    {
        proof {
            lemma_flags_are_valid();
        }
        Modifiers { bits: ALT_GR }
    }

    /// The modifiers that are in this set or in `other`.
    pub fn union(self, other: Modifiers) -> (both: Modifiers)
        ensures
            both.bits == self.bits | other.bits,
            self.is_valid() && other.is_valid() ==> both.is_valid(),
            forall|mask: u32| self.has(mask) || other.has(mask) ==> #[trigger] both.has(mask),
    {
        proof {
            lemma_union(self.bits, other.bits);
        }
        Modifiers { bits: self.bits | other.bits }
    }

    /// The modifiers that are in this set and not in `other`.
    pub fn difference(self, other: Modifiers) -> (rest: Modifiers)
        ensures
            rest.bits == self.bits & !other.bits,
            self.is_valid() ==> rest.is_valid(),
    {
        proof {
            lemma_difference(self.bits, other.bits);
        }
        Modifiers { bits: self.bits & !other.bits }
    }

    /// Tells whether no bit is set.
    pub fn is_empty(&self) -> (empty: bool)
        ensures
            empty == (self.bits == 0),
    {
        self.bits == 0
    }

    /// The bits of this set.
    pub fn bits(&self) -> (bits: u32)
        ensures
            bits == self.bits,
    {
        self.bits
    }

    /// Reads a set from its bits. Bits that stand for no modifier make the
    /// value illegal, and `None` is returned.
    pub fn from_bits(bits: u32) -> (m: Option<Modifiers>)
        ensures
            bits & !ALL == 0 ==> m == Some(Modifiers { bits }),
            bits & !ALL != 0 ==> m is None,
            m matches Some(set) ==> set.is_valid(),
    {
        if bits & !ALL == 0 {
            Some(Modifiers { bits })
        } else {
            None
        }
    }

    /// Tells whether every modifier of `other` is in this set.
    #[verifier::when_used_as_spec(spec_contains)]
    pub fn contains(&self, other: Modifiers) -> (held: bool)
        ensures
            held == self.spec_contains(other),
    {
        self.bits & other.bits == other.bits
    }

    /// Tells whether every bit of `mask` is set.
    pub fn contains_bits(&self, mask: u32) -> (held: bool)
        ensures
            held == self.has(mask),
    {
        self.bits & mask == mask
    }

    /// Tells whether a modifier that turns a keystroke into a shortcut is
    /// held: control, alt or meta, in any form.
    #[verifier::when_used_as_spec(spec_is_shortcut)]
    pub fn is_shortcut(&self) -> (shortcut: bool)
        ensures
            shortcut == self.spec_is_shortcut(),
    {
        self.contains_bits(CTRL) || self.contains_bits(ALT) || self.contains_bits(LEFT_CTRL)
            || self.contains_bits(LEFT_ALT) || self.contains_bits(RIGHT_CTRL)
            || self.contains_bits(RIGHT_ALT) || self.contains_bits(META)
    }

    /// One step of the reduction to logical form: where `seen` holds the bit
    /// of either side, both sides are taken out of `bits` and the logical
    /// bit is put in.
    fn fold_sides(seen: u32, bits: u32, left: u32, right: u32, logical: u32) -> (folded: u32)
        ensures
            folded == if seen & left == left || seen & right == right {
                (bits & !left & !right) | logical
            } else {
                bits
            },
    {
        if seen & left == left || seen & right == right {
            (bits & !left & !right) | logical
        } else {
            bits
        }
    }

    /// Reduces the set to its logical form: the bits that name a side of
    /// the keyboard are taken out, and the logical bit of shift, alt or
    /// control is set wherever it or one of its sides was.
    #[verifier::when_used_as_spec(spec_trans_positional_mods)]
    pub fn trans_positional_mods(self) -> (logical: Modifiers)
        ensures
            logical == self.spec_trans_positional_mods(),
            logical.bits & POSITIONAL == 0,
            self.is_valid() ==> logical.is_valid(),
    {
        let seen: u32 = self.bits;
        let with_alt: u32 = Self::fold_sides(seen, seen, LEFT_ALT, RIGHT_ALT, ALT);
        let with_ctrl: u32 = Self::fold_sides(seen, with_alt, LEFT_CTRL, RIGHT_CTRL, CTRL);
        let with_shift: u32 = Self::fold_sides(seen, with_ctrl, LEFT_SHIFT, RIGHT_SHIFT, SHIFT);
        proof {
            lemma_reduce_positional_steps(seen);
            lemma_reduce_positional_facts(seen);
        }
        Modifiers { bits: with_shift }
    }

    /// Replaces the pair of left control and right alt, which keyboards
    /// with an alternate-graphics key report when it is held, by the
    /// alternate-graphics modifier. A set without that pair is returned
    /// as it is.
    #[verifier::when_used_as_spec(spec_normalize_altgr)]
    pub fn normalize_altgr(&self) -> (normalized: Modifiers)
        ensures
            normalized == self.spec_normalize_altgr(),
            self.is_valid() ==> normalized.is_valid(),
    {
        proof {
            lemma_fold_alt_gr(self.bits);
        }
        if self.contains_bits(LEFT_CTRL) && self.contains_bits(RIGHT_ALT) {
            Modifiers { bits: (self.bits & !LEFT_CTRL & !RIGHT_ALT) | ALT_GR }
        } else {
            *self
        }
    }

    /// Puts together the modifiers that are down from the states of the
    /// four logical modifier keys, as a platform reports them that does not
    /// tell the left key from the right.
    #[verifier::when_used_as_spec(spec_get_current_modifiers)]
    pub fn get_current_modifiers(shift: bool, ctrl: bool, alt: bool, meta: bool) -> (current:
        Modifiers)
        ensures
            current == Modifiers::spec_get_current_modifiers(shift, ctrl, alt, meta),
            current.has(SHIFT) == shift,
            current.has(CTRL) == ctrl,
            current.has(ALT) == alt,
            current.has(META) == meta,
            current.is_valid(),
    {
        let shift_bit: u32 = if shift {
            SHIFT
        } else {
            0
        };
        let ctrl_bit: u32 = if ctrl {
            CTRL
        } else {
            0
        };
        let alt_bit: u32 = if alt {
            ALT
        } else {
            0
        };
        let meta_bit: u32 = if meta {
            META
        } else {
            0
        };
        proof {
            lemma_logical_bits(shift_bit, ctrl_bit, alt_bit, meta_bit);
        }
        Modifiers { bits: shift_bit | ctrl_bit | alt_bit | meta_bit }
    }

    /// Tells whether a key is down in a table of key states, which holds
    /// one byte for each virtual-key code: a key is down when the high bit
    /// of its byte is set.
    #[inline]
    pub fn is_pressed(states: &[u8; 256], vk_code: i32) -> (down: bool)
        requires
            0 <= vk_code < 256,
        ensures
            down == state_is_down(states@, vk_code as int),
    {
        (states[vk_code as usize] & 0x80) != 0
    }

    /// Puts together the modifiers that are down from a table of key
    /// states, as a platform reports them that tells the left key from the
    /// right: each shift, control and alt key gives its positional bit, and
    /// either meta key gives the meta bit.
    pub fn from_keyboard_state(states: &[u8; 256]) -> (current: Modifiers)
        ensures
            current.bits == bits_of_keyboard_state(states@),
            current.is_valid(),
            current.has(LEFT_SHIFT) == state_is_down(states@, VK_LSHIFT as int),
            current.has(RIGHT_SHIFT) == state_is_down(states@, VK_RSHIFT as int),
            current.has(LEFT_CTRL) == state_is_down(states@, VK_LCONTROL as int),
            current.has(RIGHT_CTRL) == state_is_down(states@, VK_RCONTROL as int),
            current.has(LEFT_ALT) == state_is_down(states@, VK_LMENU as int),
            current.has(RIGHT_ALT) == state_is_down(states@, VK_RMENU as int),
            current.has(META) == (state_is_down(states@, VK_LWIN as int) || state_is_down(
                states@,
                VK_RWIN as int,
            )),
    {
        let left_shift: u32 = if Self::is_pressed(states, VK_LSHIFT) {
            LEFT_SHIFT
        } else {
            0
        };
        let right_shift: u32 = if Self::is_pressed(states, VK_RSHIFT) {
            RIGHT_SHIFT
        } else {
            0
        };
        let left_ctrl: u32 = if Self::is_pressed(states, VK_LCONTROL) {
            LEFT_CTRL
        } else {
            0
        };
        let right_ctrl: u32 = if Self::is_pressed(states, VK_RCONTROL) {
            RIGHT_CTRL
        } else {
            0
        };
        let left_alt: u32 = if Self::is_pressed(states, VK_LMENU) {
            LEFT_ALT
        } else {
            0
        };
        let right_alt: u32 = if Self::is_pressed(states, VK_RMENU) {
            RIGHT_ALT
        } else {
            0
        };
        let left_meta: u32 = if Self::is_pressed(states, VK_LWIN) {
            META
        } else {
            0
        };
        let right_meta: u32 = if Self::is_pressed(states, VK_RWIN) {
            META
        } else {
            0
        };
        proof {
            lemma_keyboard_state_bits(
                left_shift,
                right_shift,
                left_ctrl,
                right_ctrl,
                left_alt,
                right_alt,
                left_meta,
                right_meta,
            );
        }
        Modifiers {
            bits: left_shift | right_shift | left_ctrl | right_ctrl | left_alt | right_alt
                | left_meta | right_meta,
        }
    }

    /// Appends the name of a modifier to `text` if it is held, after a bar
    /// where `text` holds a name already.
    fn push_label(text: &mut String, held: bool, label: &str)
        ensures
            final(text)@ == with_label(old(text)@, held, label@),
    {
        if held {
            if !text.as_str().is_empty() {
                proof {
                    reveal_strlit("|");
                }
                text.append("|");
                assert("|"@ =~= seq!['|']);
            }
            let ghost before = text@;
            text.append(label);
            assert(Seq::<char>::empty() + label@ =~= label@);
        }
    }

    /// Writes the set as the names of its modifiers, joined by bars in the
    /// order of their bits. The empty set is written `NONE`.
    pub fn to_string(&self) -> (text: String)
        ensures
            text@ == self.spec_to_string(),
    {
        let mut text: String = String::new();
        if self.bits == 0 {
            text.append("NONE");
            assert(Seq::<char>::empty() + "NONE"@ =~= "NONE"@);
        }
        Self::push_label(&mut text, self.contains_bits(SHIFT), "SHIFT");
        Self::push_label(&mut text, self.contains_bits(ALT), "ALT");
        Self::push_label(&mut text, self.contains_bits(CTRL), "CTRL");
        Self::push_label(&mut text, self.contains_bits(META), "META");
        Self::push_label(&mut text, self.contains_bits(LEFT_ALT), "LEFT_ALT");
        Self::push_label(&mut text, self.contains_bits(RIGHT_ALT), "RIGHT_ALT");
        Self::push_label(&mut text, self.contains_bits(LEFT_CTRL), "LEFT_CTRL");
        Self::push_label(&mut text, self.contains_bits(RIGHT_CTRL), "RIGHT_CTRL");
        Self::push_label(&mut text, self.contains_bits(LEFT_SHIFT), "LEFT_SHIFT");
        Self::push_label(&mut text, self.contains_bits(RIGHT_SHIFT), "RIGHT_SHIFT");
        Self::push_label(&mut text, self.contains_bits(CAPS), "CAPS");
        Self::push_label(&mut text, self.contains_bits(NUM), "NUM");
        Self::push_label(&mut text, self.contains_bits(ALT_GR), "ALT_GR");
        text
    }

    /// What the logical form holds: shift, alt and control each where the
    /// set held the modifier or one of its sides, every other modifier
    /// where the set held it, and no side of the keyboard.
    pub proof fn lemma_trans_positional_mods_holds(m: Modifiers)
        ensures
            m.spec_trans_positional_mods().has(SHIFT) == (m.has(SHIFT) || m.has(LEFT_SHIFT)
                || m.has(RIGHT_SHIFT)),
            m.spec_trans_positional_mods().has(ALT) == (m.has(ALT) || m.has(LEFT_ALT) || m.has(
                RIGHT_ALT,
            )),
            m.spec_trans_positional_mods().has(CTRL) == (m.has(CTRL) || m.has(LEFT_CTRL) || m.has(
                RIGHT_CTRL,
            )),
            m.spec_trans_positional_mods().has(META) == m.has(META),
            m.spec_trans_positional_mods().has(CAPS) == m.has(CAPS),
            m.spec_trans_positional_mods().has(NUM) == m.has(NUM),
            m.spec_trans_positional_mods().has(ALT_GR) == m.has(ALT_GR),
            !m.spec_trans_positional_mods().has(LEFT_SHIFT),
            !m.spec_trans_positional_mods().has(RIGHT_SHIFT),
            !m.spec_trans_positional_mods().has(LEFT_ALT),
            !m.spec_trans_positional_mods().has(RIGHT_ALT),
            !m.spec_trans_positional_mods().has(LEFT_CTRL),
            !m.spec_trans_positional_mods().has(RIGHT_CTRL),
            m.is_valid() ==> m.spec_trans_positional_mods().is_valid(),
    {
        lemma_reduce_positional_holds(m.bits);
    }

    /// Which of the modifiers a set of one flag holds: that flag, and no
    /// other. The empty set holds none.
    pub proof fn lemma_single_flags()
        ensures
            forall|flag: u32, other: u32|
                #![trigger is_flag(flag), is_flag(other)]
                is_flag(flag) && is_flag(other) ==> (Modifiers { bits: flag }).has(other) == (flag
                    == other),
            forall|flag: u32| #[trigger] is_flag(flag) ==> !(Modifiers { bits: 0 }).has(flag),
    {
        assert forall|flag: u32, other: u32|
            #![trigger is_flag(flag), is_flag(other)]
            is_flag(flag) && is_flag(other) implies (Modifiers { bits: flag }).has(other) == (flag
            == other) by {
            lemma_flags_differ(flag, other);
        }
        assert forall|flag: u32| #[trigger] is_flag(flag) implies !(Modifiers { bits: 0 }).has(
            flag,
        ) by {
            lemma_flags_differ(flag, flag);
        }
    }

    /// The logical reduction changes nothing in a set that it produced.
    pub proof fn lemma_trans_positional_mods_idempotent(m: Modifiers)
        ensures
            m.spec_trans_positional_mods().spec_trans_positional_mods()
                == m.spec_trans_positional_mods(),
    {
        lemma_reduce_positional_idempotent(m.bits);
    }
}

/// The three steps of the reduction, taken one after the other, give the
/// logical form.
proof fn lemma_reduce_positional_steps(bits: u32)
    by (bit_vector)
    ensures
        ({
            let with_alt = if bits & LEFT_ALT == LEFT_ALT || bits & RIGHT_ALT == RIGHT_ALT {
                (bits & !LEFT_ALT & !RIGHT_ALT) | ALT
            } else {
                bits
            };
            let with_ctrl = if bits & LEFT_CTRL == LEFT_CTRL || bits & RIGHT_CTRL == RIGHT_CTRL {
                (with_alt & !LEFT_CTRL & !RIGHT_CTRL) | CTRL
            } else {
                with_alt
            };
            let with_shift = if bits & LEFT_SHIFT == LEFT_SHIFT || bits & RIGHT_SHIFT
                == RIGHT_SHIFT {
                (with_ctrl & !LEFT_SHIFT & !RIGHT_SHIFT) | SHIFT
            } else {
                with_ctrl
            };
            with_shift == reduce_positional(bits)
        }),
{
}

/// The logical form holds no positional bit, and no bit that the set did
/// not hold beside the three logical ones.
proof fn lemma_reduce_positional_facts(bits: u32)
    by (bit_vector)
    ensures
        reduce_positional(bits) & POSITIONAL == 0,
        bits & !ALL == 0 ==> reduce_positional(bits) & !ALL == 0,
{
}

/// Reducing a second time changes nothing.
proof fn lemma_reduce_positional_idempotent(bits: u32)
    by (bit_vector)
    ensures
        reduce_positional(reduce_positional(bits)) == reduce_positional(bits),
{
}

/// Each logical bit is in the union of the four exactly when it was put in.
proof fn lemma_logical_bits(shift_bit: u32, ctrl_bit: u32, alt_bit: u32, meta_bit: u32)
    by (bit_vector)
    requires
        shift_bit == 0 || shift_bit == SHIFT,
        ctrl_bit == 0 || ctrl_bit == CTRL,
        alt_bit == 0 || alt_bit == ALT,
        meta_bit == 0 || meta_bit == META,
    ensures
        ((shift_bit | ctrl_bit | alt_bit | meta_bit) & SHIFT == SHIFT) == (shift_bit == SHIFT),
        ((shift_bit | ctrl_bit | alt_bit | meta_bit) & CTRL == CTRL) == (ctrl_bit == CTRL),
        ((shift_bit | ctrl_bit | alt_bit | meta_bit) & ALT == ALT) == (alt_bit == ALT),
        ((shift_bit | ctrl_bit | alt_bit | meta_bit) & META == META) == (meta_bit == META),
        (shift_bit | ctrl_bit | alt_bit | meta_bit) & !ALL == 0,
{
}

/// Each flag is made of modifier bits only.
proof fn lemma_flags_are_valid()
    by (bit_vector)
    ensures
        0u32 & !ALL == 0,
        SHIFT & !ALL == 0,
        ALT & !ALL == 0,
        CTRL & !ALL == 0,
        META & !ALL == 0,
        LEFT_ALT & !ALL == 0,
        RIGHT_ALT & !ALL == 0,
        LEFT_CTRL & !ALL == 0,
        RIGHT_CTRL & !ALL == 0,
        LEFT_SHIFT & !ALL == 0,
        RIGHT_SHIFT & !ALL == 0,
        CAPS & !ALL == 0,
        NUM & !ALL == 0,
        ALT_GR & !ALL == 0,
{
}

/// A union holds what either side holds, and nothing that neither does.
proof fn lemma_union(a: u32, b: u32)
    by (bit_vector)
    ensures
        a & !ALL == 0 && b & !ALL == 0 ==> (a | b) & !ALL == 0,
        forall|mask: u32| a & mask == mask || b & mask == mask ==> #[trigger] ((a | b) & mask)
            == mask,
{
}

/// Taking bits out of a set adds none.
proof fn lemma_difference(a: u32, b: u32)
    by (bit_vector)
    ensures
        a & !ALL == 0 ==> (a & !b) & !ALL == 0,
{
}

/// Folding left control and right alt into alternate graphics keeps a set
/// within the modifier bits.
proof fn lemma_fold_alt_gr(bits: u32)
    by (bit_vector)
    ensures
        bits & !ALL == 0 ==> fold_alt_gr(bits) & !ALL == 0,
{
}

/// A table of key states gives positional bits and the meta bit only.
proof fn lemma_keyboard_state_bits(
    left_shift: u32,
    right_shift: u32,
    left_ctrl: u32,
    right_ctrl: u32,
    left_alt: u32,
    right_alt: u32,
    left_meta: u32,
    right_meta: u32,
)
    by (bit_vector)
    requires
        left_shift == 0 || left_shift == LEFT_SHIFT,
        right_shift == 0 || right_shift == RIGHT_SHIFT,
        left_ctrl == 0 || left_ctrl == LEFT_CTRL,
        right_ctrl == 0 || right_ctrl == RIGHT_CTRL,
        left_alt == 0 || left_alt == LEFT_ALT,
        right_alt == 0 || right_alt == RIGHT_ALT,
        left_meta == 0 || left_meta == META,
        right_meta == 0 || right_meta == META,
    ensures
        ({
            let all = left_shift | right_shift | left_ctrl | right_ctrl | left_alt | right_alt
                | left_meta | right_meta;
            &&& all & !ALL == 0
            &&& (all & LEFT_SHIFT == LEFT_SHIFT) == (left_shift == LEFT_SHIFT)
            &&& (all & RIGHT_SHIFT == RIGHT_SHIFT) == (right_shift == RIGHT_SHIFT)
            &&& (all & LEFT_CTRL == LEFT_CTRL) == (left_ctrl == LEFT_CTRL)
            &&& (all & RIGHT_CTRL == RIGHT_CTRL) == (right_ctrl == RIGHT_CTRL)
            &&& (all & LEFT_ALT == LEFT_ALT) == (left_alt == LEFT_ALT)
            &&& (all & RIGHT_ALT == RIGHT_ALT) == (right_alt == RIGHT_ALT)
            &&& (all & META == META) == (left_meta == META || right_meta == META)
        }),
{
}

/// What the logical form holds, flag by flag.
proof fn lemma_reduce_positional_holds(bits: u32)
    by (bit_vector)
    ensures
        (reduce_positional(bits) & SHIFT == SHIFT) == (bits & SHIFT == SHIFT || bits & LEFT_SHIFT
            == LEFT_SHIFT || bits & RIGHT_SHIFT == RIGHT_SHIFT),
        (reduce_positional(bits) & ALT == ALT) == (bits & ALT == ALT || bits & LEFT_ALT == LEFT_ALT
            || bits & RIGHT_ALT == RIGHT_ALT),
        (reduce_positional(bits) & CTRL == CTRL) == (bits & CTRL == CTRL || bits & LEFT_CTRL
            == LEFT_CTRL || bits & RIGHT_CTRL == RIGHT_CTRL),
        (reduce_positional(bits) & META == META) == (bits & META == META),
        (reduce_positional(bits) & CAPS == CAPS) == (bits & CAPS == CAPS),
        (reduce_positional(bits) & NUM == NUM) == (bits & NUM == NUM),
        (reduce_positional(bits) & ALT_GR == ALT_GR) == (bits & ALT_GR == ALT_GR),
        reduce_positional(bits) & LEFT_SHIFT != LEFT_SHIFT,
        reduce_positional(bits) & RIGHT_SHIFT != RIGHT_SHIFT,
        reduce_positional(bits) & LEFT_ALT != LEFT_ALT,
        reduce_positional(bits) & RIGHT_ALT != RIGHT_ALT,
        reduce_positional(bits) & LEFT_CTRL != LEFT_CTRL,
        reduce_positional(bits) & RIGHT_CTRL != RIGHT_CTRL,
        bits & !ALL == 0 ==> reduce_positional(bits) & !ALL == 0,
{
}

/// Two flags share no bit unless they are the same flag, and no flag is
/// empty.
proof fn lemma_flags_differ(flag: u32, other: u32)
    by (bit_vector)
    requires
        flag == SHIFT || flag == ALT || flag == CTRL || flag == META || flag == LEFT_ALT || flag
            == RIGHT_ALT || flag == LEFT_CTRL || flag == RIGHT_CTRL || flag == LEFT_SHIFT || flag
            == RIGHT_SHIFT || flag == CAPS || flag == NUM || flag == ALT_GR,
        other == SHIFT || other == ALT || other == CTRL || other == META || other == LEFT_ALT
            || other == RIGHT_ALT || other == LEFT_CTRL || other == RIGHT_CTRL || other
            == LEFT_SHIFT || other == RIGHT_SHIFT || other == CAPS || other == NUM || other
            == ALT_GR,
    ensures
        (flag & other == other) == (flag == other),
        0u32 & flag != flag,
{
}

} // verus!
