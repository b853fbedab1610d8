use vstd::prelude::*;
use vstd::string::*;

verus! {

/// Tells whether two strings hold the same characters.
pub fn str_equals(a: &str, b: &str) -> (same: bool)
    ensures
        same == (a@ == b@),
{
    let left: Vec<char> = chars_of(a);
    let right: Vec<char> = chars_of(b);
    assert(left@.subrange(0, left@.len() as int) =~= left@);
    segment_equals(&left, 0, left.len(), &right)
}

/// Whether a character is white space: one of the characters that
/// Unicode gives the property `White_Space`.
pub open spec fn spec_is_whitespace(c: char) -> bool {
    let code = c as u32;
    ||| 0x09 <= code <= 0x0d
    ||| code == 0x20
    ||| code == 0x85
    ||| code == 0xa0
    ||| code == 0x1680
    ||| 0x2000 <= code <= 0x200a
    ||| code == 0x2028
    ||| code == 0x2029
    ||| code == 0x202f
    ||| code == 0x205f
    ||| code == 0x3000
}

/// Tells whether a character is white space.
#[verifier::when_used_as_spec(spec_is_whitespace)]
pub fn is_whitespace(c: char) -> (white: bool)
    ensures
        white == spec_is_whitespace(c),
{
    let code: u32 = c as u32;
    (0x09 <= code && code <= 0x0d) || code == 0x20 || code == 0x85 || code == 0xa0 || code
        == 0x1680 || (0x2000 <= code && code <= 0x200a) || code == 0x2028 || code == 0x2029
        || code == 0x202f || code == 0x205f || code == 0x3000
}

/// The characters of a string, one by one.
pub fn chars_of(s: &str) -> (chars: Vec<char>)
    ensures
        chars@ == s@,
{
    let mut chars: Vec<char> = Vec::new();
    for c in it: s.chars()
        invariant
            it.seq() == s@,
            chars@ == it.seq().subrange(0, it.index() as int),
    {
        chars.push(c);
        assert(chars@ =~= it.seq().subrange(0, it.index() + 1));
    }
    assert(chars@ =~= s@);
    chars
}

/// A text without the white space at its end.
pub open spec fn trimmed_end(text: Seq<char>) -> Seq<char>
    decreases text.len(),
{
    if text.len() > 0 && spec_is_whitespace(text.last()) {
        trimmed_end(text.drop_last())
    } else {
        text
    }
}

/// A text without the white space at its start.
pub open spec fn trimmed_start(text: Seq<char>) -> Seq<char>
    decreases text.len(),
{
    if text.len() > 0 && spec_is_whitespace(text.first()) {
        trimmed_start(text.drop_first())
    } else {
        text
    }
}

/// A text without the white space at its two ends.
pub open spec fn trimmed(text: Seq<char>) -> Seq<char> {
    trimmed_start(trimmed_end(text))
}

/// Finds where a stretch of characters ends once the white space at its end
/// is taken off.
pub fn trim_end_of(chars: &Vec<char>, from: usize, to: usize) -> (end: usize)
    requires
        from <= to <= chars@.len(),
    ensures
        from <= end <= to,
        chars@.subrange(from as int, end as int) == trimmed_end(
            chars@.subrange(from as int, to as int),
        ),
{
    let mut end: usize = to;
    while end > from && is_whitespace(chars[end - 1])
        invariant
            from <= end <= to,
            to <= chars@.len(),
            trimmed_end(chars@.subrange(from as int, to as int)) == trimmed_end(
                chars@.subrange(from as int, end as int),
            ),
        decreases end,
    {
        proof {
            let text = chars@.subrange(from as int, end as int);
            assert(text.last() == chars@[end - 1]);
            assert(text.drop_last() =~= chars@.subrange(from as int, end - 1));
        }
        end -= 1;
    }
    proof {
        let text = chars@.subrange(from as int, end as int);
        if end > from {
            assert(text.last() == chars@[end - 1]);
        }
        assert(trimmed_end(text) == text);
    }
    end
}

/// Finds where a stretch of characters starts once the white space at its
/// start is taken off.
pub fn trim_start_of(chars: &Vec<char>, from: usize, to: usize) -> (start: usize)
    requires
        from <= to <= chars@.len(),
    ensures
        from <= start <= to,
        chars@.subrange(start as int, to as int) == trimmed_start(
            chars@.subrange(from as int, to as int),
        ),
{
    let mut start: usize = from;
    while start < to && is_whitespace(chars[start])
        invariant
            from <= start <= to,
            to <= chars@.len(),
            trimmed_start(chars@.subrange(from as int, to as int)) == trimmed_start(
                chars@.subrange(start as int, to as int),
            ),
        decreases to - start,
    {
        proof {
            let text = chars@.subrange(start as int, to as int);
            assert(text.first() == chars@[start as int]);
            assert(text.drop_first() =~= chars@.subrange(start + 1, to as int));
        }
        start += 1;
    }
    proof {
        let text = chars@.subrange(start as int, to as int);
        if start < to {
            assert(text.first() == chars@[start as int]);
        }
        assert(trimmed_start(text) == text);
    }
    start
}

/// Tells whether a stretch of characters is a given text.
pub fn segment_equals(chars: &Vec<char>, from: usize, to: usize, text: &Vec<char>) -> (same: bool)
    requires
        from <= to <= chars@.len(),
    ensures
        same == (chars@.subrange(from as int, to as int) == text@),
{
    let count: usize = to - from;
    if count != text.len() {
        return false;
    }
    let ghost segment = chars@.subrange(from as int, to as int);
    let mut index: usize = 0;
    while index < count
        invariant
            index <= count,
            count == to - from,
            count == text@.len(),
            to <= chars@.len(),
            segment == chars@.subrange(from as int, to as int),
            forall|i: int| 0 <= i < index ==> segment[i] == text@[i],
        decreases count - index,
    {
        if chars[from + index] != text[index] {
            assert(segment[index as int] != text@[index as int]);
            return false;
        }
        index += 1;
    }
    assert(segment =~= text@);
    true
}

/// The character that stands for a digit.
pub open spec fn digit_char(digit: int) -> char {
    if digit == 0 {
        '0'
    } else if digit == 1 {
        '1'
    } else if digit == 2 {
        '2'
    } else if digit == 3 {
        '3'
    } else if digit == 4 {
        '4'
    } else if digit == 5 {
        '5'
    } else if digit == 6 {
        '6'
    } else if digit == 7 {
        '7'
    } else if digit == 8 {
        '8'
    } else {
        '9'
    }
}

/// A number written in decimal, without leading zeros.
pub open spec fn decimal(number: nat) -> Seq<char>
    decreases number,
{
    if number < 10 {
        seq![digit_char(number as int)]
    } else {
        decimal(number / 10).push(digit_char((number % 10) as int))
    }
}

/// The text of a digit.
fn digit_str(digit: u32) -> (text: &'static str)
    requires
        digit < 10,
    ensures
        text@ == seq![digit_char(digit as int)],
{
    proof {
        reveal_strlit("0");
        reveal_strlit("1");
        reveal_strlit("2");
        reveal_strlit("3");
        reveal_strlit("4");
        reveal_strlit("5");
        reveal_strlit("6");
        reveal_strlit("7");
        reveal_strlit("8");
        reveal_strlit("9");
    }
    let text: &'static str = match digit {
        0 => "0",
        1 => "1",
        2 => "2",
        3 => "3",
        4 => "4",
        5 => "5",
        6 => "6",
        7 => "7",
        8 => "8",
        _ => "9",
    };
    assert(text@ =~= seq![digit_char(digit as int)]);
    text
}

/// Appends a number to a text, written in decimal.
pub fn push_decimal(text: &mut String, number: u32)
    ensures
        final(text)@ == old(text)@ + decimal(number as nat),
    decreases number,
{
    if number >= 10 {
        push_decimal(text, number / 10);
    }
    let ghost before = text@;
    text.append(digit_str(number % 10));
    proof {
        if number >= 10 {
            assert(text@ =~= old(text)@ + decimal((number / 10) as nat).push(
                digit_char((number % 10) as int),
            ));
        } else {
            assert(text@ =~= old(text)@ + seq![digit_char(number as int)]);
        }
    }
}

/// A whole number written in decimal, with a minus sign if it is below
/// zero.
pub open spec fn signed_decimal(number: int) -> Seq<char> {
    if number < 0 {
        seq!['-'] + decimal((-number) as nat)
    } else {
        decimal(number as nat)
    }
}

/// Appends a whole number to a text, written in decimal.
pub fn push_signed_decimal(text: &mut String, number: i32)
    ensures
        final(text)@ == old(text)@ + signed_decimal(number as int),
{
    if number < 0 {
        proof {
            reveal_strlit("-");
        }
        text.append("-");
        let size: u32 = if number == i32::MIN {
            0x8000_0000
        } else {
            (-number) as u32
        };
        push_decimal(text, size);
        assert(text@ =~= old(text)@ + (seq!['-'] + decimal((-number) as nat)));
    } else {
        push_decimal(text, number as u32);
    }
}

/// As many spaces as it takes to bring a text of `length` characters to
/// `width` characters.
pub open spec fn padding(length: nat, width: nat) -> Seq<char> {
    if length < width {
        Seq::new((width - length) as nat, |i: int| ' ')
    } else {
        Seq::empty()
    }
}

/// A text with spaces after it, as many as it takes to make it `width`
/// characters long. A text that is as long or longer is left as it is.
pub open spec fn padded(text: Seq<char>, width: nat) -> Seq<char> {
    text + padding(text.len(), width)
}

/// Appends a text, and spaces after it until it is `width` characters
/// long.
pub fn push_padded(out: &mut String, text: &str, width: usize)
    ensures
        final(out)@ == old(out)@ + padded(text@, width as nat),
{
    out.append(text);
    let mut length: usize = text.unicode_len();
    let ghost first = length;
    while length < width
        invariant
            first == text@.len(),
            first <= length,
            length <= width || length == first,
            out@ == old(out)@ + text@ + Seq::new((length - first) as nat, |i: int| ' '),
        decreases width - length,
    {
        proof {
            reveal_strlit(" ");
        }
        out.append(" ");
        length += 1;
        assert(out@ =~= old(out)@ + text@ + Seq::new((length - first) as nat, |i: int| ' '));
    }
    assert(out@ =~= old(out)@ + padded(text@, width as nat));
}

} // verus!
