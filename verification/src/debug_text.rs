use vstd::prelude::*;

verus! {

/// The text that the standard library writes for a character when it is
/// asked to show it for debugging: the character between single quotes,
/// with an escape in its place where it would not show.
pub uninterp spec fn char_debug_text(c: char) -> Seq<char>;

/// The text that the standard library writes for a string when it is
/// asked to show it for debugging: the string between double quotes, with
/// escapes in place of the characters that would not show.
pub uninterp spec fn str_debug_text(s: Seq<char>) -> Seq<char>;

/// Whether a number is a Unicode scalar value: a code point that is not a
/// surrogate.
pub open spec fn is_scalar_value(code_point: u32) -> bool {
    code_point < 0xd800 || 0xe000 <= code_point <= 0x10_ffff
}

/// Calls `char::from_u32` of the standard library, which gives the
/// character with a code point. It is taken on trust that every Unicode
/// scalar value gives its character, and that every other number gives
/// `None`.
#[verifier::external_body]
pub(crate) fn char_from_u32(code_point: u32) -> (c: Option<char>)
    ensures
        is_scalar_value(code_point) ==> c == Some(code_point as char),
        !is_scalar_value(code_point) ==> c is None,
{
    char::from_u32(code_point)
}

/// Formats a character with `{:?}`, the standard library's debug form. It
/// is taken on trust that the text depends on the character alone.
#[verifier::external_body]
pub(crate) fn debug_char(c: char) -> (text: String)
    ensures
        text@ == char_debug_text(c),
{
    format!("{:?}", c)
}

/// Formats a string with `{:?}`, the standard library's debug form. It is
/// taken on trust that the text depends on the string alone.
#[verifier::external_body]
pub(crate) fn debug_str(s: &str) -> (text: String)
    ensures
        text@ == str_debug_text(s@),
{
    format!("{:?}", s)
}

} // verus!
