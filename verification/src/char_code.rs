use vstd::prelude::*;
use vstd::string::*;
use crate::text::{decimal, push_decimal};

verus! {

/// Two key codes packed into 32 bits: the code of the key's position in the
/// low half, the sending system's code for the key in the high half.
///
/// Each half holds 16 bits. A code that needs more loses its upper bits
/// when it is packed.
#[derive(Clone, Copy, Debug, PartialEq, Eq, Structural)]
pub struct CharCode {
    value: u32,
}

/// The packed form of two codes, each cut to 16 bits.
pub open spec fn pack(position_code: u32, sys_code: u32) -> int {
    (position_code % 0x1_0000) + (sys_code % 0x1_0000) * 0x1_0000
}

impl CharCode {
    /// The packed value.
    pub closed spec fn spec_value(&self) -> u32 {
        self.value
    }

    /// The position code: the low 16 bits of the packed value.
    pub open spec fn spec_pos_code(&self) -> int {
        (self.spec_value() % 0x1_0000) as int
    }

    /// The system code: the high 16 bits of the packed value.
    pub open spec fn spec_sys_code(&self) -> int {
        (self.spec_value() / 0x1_0000) as int
    }

    /// Packs a position code and a system code. Only the low 16 bits of
    /// each are kept.
    pub fn new(position_code: u32, sys_code: u32) -> (code: CharCode)
        ensures
            code.spec_value() == pack(position_code, sys_code),
            code.spec_pos_code() == position_code % 0x1_0000,
            code.spec_sys_code() == sys_code % 0x1_0000,
    {
        let value: u32 = (position_code & 0x0000_ffff) | (sys_code << 16);
        assert(((position_code & 0x0000_ffffu32) | (sys_code << 16u32)) == (position_code
            % 0x1_0000u32) + (sys_code % 0x1_0000u32) * 0x1_0000u32) by (bit_vector);
        CharCode { value }
    }

    /// Takes a value that is already packed.
    pub fn from_u32(value: u32) -> (code: CharCode)
        ensures
            code.spec_value() == value,
    {
        CharCode { value }
    }

    /// The position code.
    pub fn get_pos_code(&self) -> (position_code: u32)
        ensures
            position_code == self.spec_pos_code(),
    {
        let value: u32 = self.value;
        assert(value & 0x0000_ffffu32 == value % 0x1_0000u32) by (bit_vector);
        value & 0x0000_ffff
    }

    /// The system code.
    pub fn get_sys_code(&self) -> (sys_code: u32)
        ensures
            sys_code == self.spec_sys_code(),
    {
        let value: u32 = self.value;
        assert(value >> 16u32 == value / 0x1_0000u32) by (bit_vector);
        value >> 16
    }

    /// The packed value.
    #[verifier::when_used_as_spec(spec_value)]
    pub fn value(&self) -> (value: u32)
        ensures
            value == self.spec_value(),
    {
        self.value
    }

    /// The two codes written out, as in `(PosCode=50, SysCode=160)`.
    pub open spec fn spec_to_string(&self) -> Seq<char> {
        "(PosCode="@ + decimal(self.spec_pos_code() as nat) + ", SysCode="@ + decimal(
            self.spec_sys_code() as nat,
        ) + ")"@
    }

    /// Writes the two codes out, as in `(PosCode=50, SysCode=160)`.
    pub fn to_string(&self) -> (text: String)
        ensures
            text@ == self.spec_to_string(),
    {
        let mut text: String = String::from_str("(PosCode=");
        push_decimal(&mut text, self.get_pos_code());
        text.append(", SysCode=");
        push_decimal(&mut text, self.get_sys_code());
        text.append(")");
        text
    }

    /// A packed value gives back the two codes it was made from, as far as
    /// each fits in 16 bits, and is made again from the codes it gives.
    pub proof fn lemma_pack_round_trip(position_code: u32, sys_code: u32, value: u32)
        ensures
            pack(position_code, sys_code) % 0x1_0000 == position_code % 0x1_0000,
            pack(position_code, sys_code) / 0x1_0000 == sys_code % 0x1_0000,
            0 <= pack(position_code, sys_code) <= u32::MAX,
            pack((value % 0x1_0000) as u32, (value / 0x1_0000) as u32) == value,
    {
    }
}

} // verus!
