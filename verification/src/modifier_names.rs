use vstd::prelude::*;
use vstd::std_specs::convert::{TryFromSpec, TryFromSpecImpl};
use crate::modifiers::{
    bit_if, with_label, Modifiers, ALL, ALT, ALT_GR, CAPS, CTRL, LEFT_ALT, LEFT_CTRL, LEFT_SHIFT, META, NUM,
    RIGHT_ALT, RIGHT_CTRL, RIGHT_SHIFT, SHIFT,
};
use crate::text::{
    chars_of, segment_equals, spec_is_whitespace, trim_end_of, trim_start_of, trimmed, trimmed_end,
    trimmed_start,
};

verus! {

/// Whether the characters from `from` up to `to` are one of the pieces
/// into which bars cut a text: a bar or the start of the text stands before
/// them, a bar or the end of the text after them, and no bar among them.
pub open spec fn is_piece(text: Seq<char>, from: int, to: int) -> bool {
    &&& 0 <= from <= to <= text.len()
    &&& (from == 0 || text[from - 1] == '|')
    &&& (to == text.len() || text[to] == '|')
    &&& forall|i: int| from <= i < to ==> text[i] != '|'
}

/// Whether a text names a word: one of its pieces, without the white
/// space at its two ends, is the word.
#[verifier::opaque]
pub open spec fn names(text: Seq<char>, word: Seq<char>) -> bool {
    exists|from: int, to: int| #[trigger]
        is_piece(text, from, to) && trimmed(text.subrange(from, to)) == word
}

/// The bits of the modifiers that a text names. Words that are not the
/// name of a modifier count for nothing.
pub open spec fn named_bits(text: Seq<char>) -> u32 {
    bit_if(names(text, "SHIFT"@), SHIFT) | bit_if(names(text, "ALT"@), ALT) | bit_if(
        names(text, "CTRL"@),
        CTRL,
    ) | bit_if(names(text, "META"@), META) | bit_if(names(text, "LEFT_ALT"@), LEFT_ALT) | bit_if(
        names(text, "RIGHT_ALT"@),
        RIGHT_ALT,
    ) | bit_if(names(text, "LEFT_CTRL"@), LEFT_CTRL) | bit_if(
        names(text, "RIGHT_CTRL"@),
        RIGHT_CTRL,
    ) | bit_if(names(text, "LEFT_SHIFT"@), LEFT_SHIFT) | bit_if(
        names(text, "RIGHT_SHIFT"@),
        RIGHT_SHIFT,
    ) | bit_if(names(text, "CAPS"@), CAPS) | bit_if(names(text, "NUM"@), NUM) | bit_if(
        names(text, "ALT_GR"@),
        ALT_GR,
    )
}

/// Tells whether a text names a word.
pub fn names_word(chars: &Vec<char>, word: &str) -> (found: bool)
    ensures
        found == names(chars@, word@),
{
    let wanted: Vec<char> = chars_of(word);
    let count: usize = chars.len();
    let mut from: usize = 0;
    loop
        invariant
            from <= count,
            count == chars@.len(),
            wanted@ == word@,
            from == 0 || chars@[from - 1] == '|',
            forall|f: int, t: int|
                f < from && #[trigger] is_piece(chars@, f, t) ==> trimmed(chars@.subrange(f, t))
                    != word@,
        decreases count - from,
    {
        let mut to: usize = from;
        while to < count && chars[to] != '|'
            invariant
                from <= to <= count,
                count == chars@.len(),
                forall|i: int| from <= i < to ==> chars@[i] != '|',
            decreases count - to,
        {
            to += 1;
        }
        assert(is_piece(chars@, from as int, to as int));
        let end: usize = trim_end_of(chars, from, to);
        let start: usize = trim_start_of(chars, from, end);
        if segment_equals(chars, start, end, &wanted) {
            proof {
                reveal(names);
            }
            return true;
        }
        proof {
            assert forall|f: int, t: int| f <= to && #[trigger] is_piece(chars@, f, t) implies trimmed(
                chars@.subrange(f, t),
            ) != word@ by {
                if f >= from {
                    if f > from {
                        assert(chars@[f - 1] == '|');
                    }
                    assert(f == from);
                    if t < to {
                        assert(chars@[t] == '|');
                    }
                    if t > to {
                        assert(chars@[to as int] == '|');
                    }
                    assert(t == to);
                }
            }
        }
        if to == count {
            proof {
                reveal(names);
            }
            return false;
        }
        from = to + 1;
    }
}

impl TryFrom<String> for Modifiers {
    type Error = String;

    /// Reads a set of modifiers from their names, written with bars
    /// between them and white space round them as one likes. A word that
    /// is not the name of a modifier is passed over, `NONE` among them, so
    /// that every text gives a set.
    fn try_from(s: String) -> (parsed: Result<Modifiers, String>) {
        let chars: Vec<char> = chars_of(s.as_str());
        let shift: u32 = if names_word(&chars, "SHIFT") {
            SHIFT
        } else {
            0
        };
        let alt: u32 = if names_word(&chars, "ALT") {
            ALT
        } else {
            0
        };
        let ctrl: u32 = if names_word(&chars, "CTRL") {
            CTRL
        } else {
            0
        };
        let meta: u32 = if names_word(&chars, "META") {
            META
        } else {
            0
        };
        let left_alt: u32 = if names_word(&chars, "LEFT_ALT") {
            LEFT_ALT
        } else {
            0
        };
        let right_alt: u32 = if names_word(&chars, "RIGHT_ALT") {
            RIGHT_ALT
        } else {
            0
        };
        let left_ctrl: u32 = if names_word(&chars, "LEFT_CTRL") {
            LEFT_CTRL
        } else {
            0
        };
        let right_ctrl: u32 = if names_word(&chars, "RIGHT_CTRL") {
            RIGHT_CTRL
        } else {
            0
        };
        let left_shift: u32 = if names_word(&chars, "LEFT_SHIFT") {
            LEFT_SHIFT
        } else {
            0
        };
        let right_shift: u32 = if names_word(&chars, "RIGHT_SHIFT") {
            RIGHT_SHIFT
        } else {
            0
        };
        let caps: u32 = if names_word(&chars, "CAPS") {
            CAPS
        } else {
            0
        };
        let num: u32 = if names_word(&chars, "NUM") {
            NUM
        } else {
            0
        };
        let alt_gr: u32 = if names_word(&chars, "ALT_GR") {
            ALT_GR
        } else {
            0
        };
        Ok(
            Modifiers {
                bits: shift | alt | ctrl | meta | left_alt | right_alt | left_ctrl | right_ctrl
                    | left_shift | right_shift | caps | num | alt_gr,
            },
        )
    }
}

impl TryFromSpecImpl<String> for Modifiers {
    open spec fn obeys_try_from_spec() -> bool {
        true
    }

    open spec fn try_from_spec(s: String) -> Result<Modifiers, String> {
        Ok(Modifiers { bits: named_bits(s@) })
    }
}

/// The set that a text gives holds a modifier exactly when the text names
/// it, and holds nothing but modifiers.
pub proof fn lemma_named_bits(text: Seq<char>)
    ensures
        (Modifiers { bits: named_bits(text) }).is_valid(),
        (Modifiers { bits: named_bits(text) }).has(SHIFT) == names(text, "SHIFT"@),
        (Modifiers { bits: named_bits(text) }).has(ALT) == names(text, "ALT"@),
        (Modifiers { bits: named_bits(text) }).has(CTRL) == names(text, "CTRL"@),
        (Modifiers { bits: named_bits(text) }).has(META) == names(text, "META"@),
        (Modifiers { bits: named_bits(text) }).has(LEFT_ALT) == names(text, "LEFT_ALT"@),
        (Modifiers { bits: named_bits(text) }).has(RIGHT_ALT) == names(text, "RIGHT_ALT"@),
        (Modifiers { bits: named_bits(text) }).has(LEFT_CTRL) == names(text, "LEFT_CTRL"@),
        (Modifiers { bits: named_bits(text) }).has(RIGHT_CTRL) == names(text, "RIGHT_CTRL"@),
        (Modifiers { bits: named_bits(text) }).has(LEFT_SHIFT) == names(text, "LEFT_SHIFT"@),
        (Modifiers { bits: named_bits(text) }).has(RIGHT_SHIFT) == names(text, "RIGHT_SHIFT"@),
        (Modifiers { bits: named_bits(text) }).has(CAPS) == names(text, "CAPS"@),
        (Modifiers { bits: named_bits(text) }).has(NUM) == names(text, "NUM"@),
        (Modifiers { bits: named_bits(text) }).has(ALT_GR) == names(text, "ALT_GR"@),
{
    lemma_union_holds_each(
        names(text, "SHIFT"@),
        names(text, "ALT"@),
        names(text, "CTRL"@),
        names(text, "META"@),
        names(text, "LEFT_ALT"@),
        names(text, "RIGHT_ALT"@),
        names(text, "LEFT_CTRL"@),
        names(text, "RIGHT_CTRL"@),
        names(text, "LEFT_SHIFT"@),
        names(text, "RIGHT_SHIFT"@),
        names(text, "CAPS"@),
        names(text, "NUM"@),
        names(text, "ALT_GR"@),
    );
}

/// A union of flags holds each flag exactly when it was put in, and holds
/// nothing but flags.
proof fn lemma_union_holds_each(
    shift: bool,
    alt: bool,
    ctrl: bool,
    meta: bool,
    left_alt: bool,
    right_alt: bool,
    left_ctrl: bool,
    right_ctrl: bool,
    left_shift: bool,
    right_shift: bool,
    caps: bool,
    num: bool,
    alt_gr: bool,
)
    ensures
        ({
            let all = bit_if(shift, SHIFT)
                | bit_if(alt, ALT)
                | bit_if(ctrl, CTRL)
                | bit_if(meta, META)
                | bit_if(left_alt, LEFT_ALT)
                | bit_if(right_alt, RIGHT_ALT)
                | bit_if(left_ctrl, LEFT_CTRL)
                | bit_if(right_ctrl, RIGHT_CTRL)
                | bit_if(left_shift, LEFT_SHIFT)
                | bit_if(right_shift, RIGHT_SHIFT)
                | bit_if(caps, CAPS)
                | bit_if(num, NUM)
                | bit_if(alt_gr, ALT_GR);
            &&& all & !ALL == 0
            &&& (all & SHIFT == SHIFT) == shift
            &&& (all & ALT == ALT) == alt
            &&& (all & CTRL == CTRL) == ctrl
            &&& (all & META == META) == meta
            &&& (all & LEFT_ALT == LEFT_ALT) == left_alt
            &&& (all & RIGHT_ALT == RIGHT_ALT) == right_alt
            &&& (all & LEFT_CTRL == LEFT_CTRL) == left_ctrl
            &&& (all & RIGHT_CTRL == RIGHT_CTRL) == right_ctrl
            &&& (all & LEFT_SHIFT == LEFT_SHIFT) == left_shift
            &&& (all & RIGHT_SHIFT == RIGHT_SHIFT) == right_shift
            &&& (all & CAPS == CAPS) == caps
            &&& (all & NUM == NUM) == num
            &&& (all & ALT_GR == ALT_GR) == alt_gr
        }),
{
    lemma_flags_apart(
        bit_if(shift, SHIFT),
        bit_if(alt, ALT),
        bit_if(ctrl, CTRL),
        bit_if(meta, META),
        bit_if(left_alt, LEFT_ALT),
        bit_if(right_alt, RIGHT_ALT),
        bit_if(left_ctrl, LEFT_CTRL),
        bit_if(right_ctrl, RIGHT_CTRL),
        bit_if(left_shift, LEFT_SHIFT),
        bit_if(right_shift, RIGHT_SHIFT),
        bit_if(caps, CAPS),
        bit_if(num, NUM),
        bit_if(alt_gr, ALT_GR),
    );
}

/// In a union of flags, each flag can be told apart: it is in the union
/// exactly when it was put in.
proof fn lemma_flags_apart(
    shift: u32,
    alt: u32,
    ctrl: u32,
    meta: u32,
    left_alt: u32,
    right_alt: u32,
    left_ctrl: u32,
    right_ctrl: u32,
    left_shift: u32,
    right_shift: u32,
    caps: u32,
    num: u32,
    alt_gr: u32,
)
    by (bit_vector)
    requires
        shift == 0 || shift == SHIFT,
        alt == 0 || alt == ALT,
        ctrl == 0 || ctrl == CTRL,
        meta == 0 || meta == META,
        left_alt == 0 || left_alt == LEFT_ALT,
        right_alt == 0 || right_alt == RIGHT_ALT,
        left_ctrl == 0 || left_ctrl == LEFT_CTRL,
        right_ctrl == 0 || right_ctrl == RIGHT_CTRL,
        left_shift == 0 || left_shift == LEFT_SHIFT,
        right_shift == 0 || right_shift == RIGHT_SHIFT,
        caps == 0 || caps == CAPS,
        num == 0 || num == NUM,
        alt_gr == 0 || alt_gr == ALT_GR,
    ensures
        ({
            let all = shift | alt | ctrl | meta | left_alt | right_alt | left_ctrl | right_ctrl
                | left_shift | right_shift | caps | num | alt_gr;
            &&& all & !ALL == 0
            &&& (all & SHIFT == SHIFT) == (shift == SHIFT)
            &&& (all & ALT == ALT) == (alt == ALT)
            &&& (all & CTRL == CTRL) == (ctrl == CTRL)
            &&& (all & META == META) == (meta == META)
            &&& (all & LEFT_ALT == LEFT_ALT) == (left_alt == LEFT_ALT)
            &&& (all & RIGHT_ALT == RIGHT_ALT) == (right_alt == RIGHT_ALT)
            &&& (all & LEFT_CTRL == LEFT_CTRL) == (left_ctrl == LEFT_CTRL)
            &&& (all & RIGHT_CTRL == RIGHT_CTRL) == (right_ctrl == RIGHT_CTRL)
            &&& (all & LEFT_SHIFT == LEFT_SHIFT) == (left_shift == LEFT_SHIFT)
            &&& (all & RIGHT_SHIFT == RIGHT_SHIFT) == (right_shift == RIGHT_SHIFT)
            &&& (all & CAPS == CAPS) == (caps == CAPS)
            &&& (all & NUM == NUM) == (num == NUM)
            &&& (all & ALT_GR == ALT_GR) == (alt_gr == ALT_GR)
        }),
{
}

/// Whether a text can stand as a word between bars: it is not empty, holds
/// no bar, and neither starts nor ends with white space.
pub open spec fn is_plain_word(word: Seq<char>) -> bool {
    &&& word.len() > 0
    &&& forall|i: int| 0 <= i < word.len() ==> word[i] != '|'
    &&& !spec_is_whitespace(word.first())
    &&& !spec_is_whitespace(word.last())
}

/// A text without bars names one word only, itself without the white
/// space round it.
proof fn lemma_names_single_piece(text: Seq<char>, word: Seq<char>)
    requires
        forall|i: int| 0 <= i < text.len() ==> text[i] != '|',
    ensures
        names(text, word) == (trimmed(text) == word),
{
    reveal(names);
    assert(text.subrange(0, text.len() as int) =~= text);
    if trimmed(text) == word {
        assert(is_piece(text, 0, text.len() as int));
    }
    if names(text, word) {
        let (from, to) = choose|from: int, to: int| #[trigger]
            is_piece(text, from, to) && trimmed(text.subrange(from, to)) == word;
        if from > 0 {
            assert(text[from - 1] == '|');
        }
        if to < text.len() {
            assert(text[to] == '|');
        }
        assert(from == 0 && to == text.len());
    }
}

/// What a text names once a word has been added to it after a bar: what
/// it named before, and the word.
proof fn lemma_names_after_bar(text: Seq<char>, label: Seq<char>, word: Seq<char>)
    requires
        text.len() > 0,
        is_plain_word(label),
    ensures
        names(text + seq!['|'] + label, word) == (names(text, word) || label == word),
{
    reveal(names);
    let joined = text + seq!['|'] + label;
    let n = text.len() as int;
    let end = joined.len() as int;
    assert(end == n + 1 + label.len());
    assert(joined[n] == '|');
    assert forall|i: int| 0 <= i < n implies joined[i] == text[i] by {}
    assert forall|i: int| n < i < end implies joined[i] == label[i - n - 1] by {}
    assert(trimmed_end(label) == label);
    assert(trimmed_start(label) == label);
    assert(joined.subrange(n + 1, end) =~= label);
    if names(text, word) {
        let (from, to) = choose|from: int, to: int| #[trigger]
            is_piece(text, from, to) && trimmed(text.subrange(from, to)) == word;
        assert(joined.subrange(from, to) =~= text.subrange(from, to));
        assert(is_piece(joined, from, to));
    }
    if label == word {
        assert(is_piece(joined, n + 1, end));
    }
    if names(joined, word) {
        let (from, to) = choose|from: int, to: int| #[trigger]
            is_piece(joined, from, to) && trimmed(joined.subrange(from, to)) == word;
        if to <= n {
            assert(joined.subrange(from, to) =~= text.subrange(from, to));
            assert(is_piece(text, from, to));
        } else {
            if from <= n {
                assert(joined[n] == '|');
            }
            assert(from > n);
            if from > n + 1 {
                assert(joined[from - 1] == label[from - 1 - n - 1]);
            }
            assert(from == n + 1);
            if to < end {
                assert(joined[to] == label[to - n - 1]);
            }
            assert(to == end);
        }
    }
}

/// What a text names once the name of a modifier has been added to it
/// where the modifier is held.
proof fn lemma_names_with_label(text: Seq<char>, held: bool, label: Seq<char>, word: Seq<char>)
    requires
        is_plain_word(label),
        word.len() > 0,
    ensures
        names(with_label(text, held, label), word) == ((text.len() > 0 && names(text, word)) || (
        held && label == word)),
        with_label(text, held, label).len() > 0 <==> text.len() > 0 || held,
{
    if held {
        if text.len() == 0 {
            lemma_names_single_piece(label, word);
            assert(trimmed_end(label) == label);
            assert(trimmed_start(label) == label);
        } else {
            lemma_names_after_bar(text, label, word);
        }
    } else if text.len() == 0 {
        lemma_names_single_piece(text, word);
        assert(trimmed_end(text) == text);
        assert(trimmed_start(text) == text);
    }
}

/// The names of the modifiers are words that can stand between bars, and
/// no two of them are the same.
proof fn lemma_labels()
    ensures
        is_plain_word("NONE"@),
        is_plain_word("SHIFT"@),
        is_plain_word("ALT"@),
        is_plain_word("CTRL"@),
        is_plain_word("META"@),
        is_plain_word("LEFT_ALT"@),
        is_plain_word("RIGHT_ALT"@),
        is_plain_word("LEFT_CTRL"@),
        is_plain_word("RIGHT_CTRL"@),
        is_plain_word("LEFT_SHIFT"@),
        is_plain_word("RIGHT_SHIFT"@),
        is_plain_word("CAPS"@),
        is_plain_word("NUM"@),
        is_plain_word("ALT_GR"@),
        "NONE"@ != "SHIFT"@,
        "NONE"@ != "ALT"@,
        "NONE"@ != "CTRL"@,
        "NONE"@ != "META"@,
        "NONE"@ != "LEFT_ALT"@,
        "NONE"@ != "RIGHT_ALT"@,
        "NONE"@ != "LEFT_CTRL"@,
        "NONE"@ != "RIGHT_CTRL"@,
        "NONE"@ != "LEFT_SHIFT"@,
        "NONE"@ != "RIGHT_SHIFT"@,
        "NONE"@ != "CAPS"@,
        "NONE"@ != "NUM"@,
        "NONE"@ != "ALT_GR"@,
        "SHIFT"@ != "ALT"@,
        "SHIFT"@ != "CTRL"@,
        "SHIFT"@ != "META"@,
        "SHIFT"@ != "LEFT_ALT"@,
        "SHIFT"@ != "RIGHT_ALT"@,
        "SHIFT"@ != "LEFT_CTRL"@,
        "SHIFT"@ != "RIGHT_CTRL"@,
        "SHIFT"@ != "LEFT_SHIFT"@,
        "SHIFT"@ != "RIGHT_SHIFT"@,
        "SHIFT"@ != "CAPS"@,
        "SHIFT"@ != "NUM"@,
        "SHIFT"@ != "ALT_GR"@,
        "ALT"@ != "CTRL"@,
        "ALT"@ != "META"@,
        "ALT"@ != "LEFT_ALT"@,
        "ALT"@ != "RIGHT_ALT"@,
        "ALT"@ != "LEFT_CTRL"@,
        "ALT"@ != "RIGHT_CTRL"@,
        "ALT"@ != "LEFT_SHIFT"@,
        "ALT"@ != "RIGHT_SHIFT"@,
        "ALT"@ != "CAPS"@,
        "ALT"@ != "NUM"@,
        "ALT"@ != "ALT_GR"@,
        "CTRL"@ != "META"@,
        "CTRL"@ != "LEFT_ALT"@,
        "CTRL"@ != "RIGHT_ALT"@,
        "CTRL"@ != "LEFT_CTRL"@,
        "CTRL"@ != "RIGHT_CTRL"@,
        "CTRL"@ != "LEFT_SHIFT"@,
        "CTRL"@ != "RIGHT_SHIFT"@,
        "CTRL"@ != "CAPS"@,
        "CTRL"@ != "NUM"@,
        "CTRL"@ != "ALT_GR"@,
        "META"@ != "LEFT_ALT"@,
        "META"@ != "RIGHT_ALT"@,
        "META"@ != "LEFT_CTRL"@,
        "META"@ != "RIGHT_CTRL"@,
        "META"@ != "LEFT_SHIFT"@,
        "META"@ != "RIGHT_SHIFT"@,
        "META"@ != "CAPS"@,
        "META"@ != "NUM"@,
        "META"@ != "ALT_GR"@,
        "LEFT_ALT"@ != "RIGHT_ALT"@,
        "LEFT_ALT"@ != "LEFT_CTRL"@,
        "LEFT_ALT"@ != "RIGHT_CTRL"@,
        "LEFT_ALT"@ != "LEFT_SHIFT"@,
        "LEFT_ALT"@ != "RIGHT_SHIFT"@,
        "LEFT_ALT"@ != "CAPS"@,
        "LEFT_ALT"@ != "NUM"@,
        "LEFT_ALT"@ != "ALT_GR"@,
        "RIGHT_ALT"@ != "LEFT_CTRL"@,
        "RIGHT_ALT"@ != "RIGHT_CTRL"@,
        "RIGHT_ALT"@ != "LEFT_SHIFT"@,
        "RIGHT_ALT"@ != "RIGHT_SHIFT"@,
        "RIGHT_ALT"@ != "CAPS"@,
        "RIGHT_ALT"@ != "NUM"@,
        "RIGHT_ALT"@ != "ALT_GR"@,
        "LEFT_CTRL"@ != "RIGHT_CTRL"@,
        "LEFT_CTRL"@ != "LEFT_SHIFT"@,
        "LEFT_CTRL"@ != "RIGHT_SHIFT"@,
        "LEFT_CTRL"@ != "CAPS"@,
        "LEFT_CTRL"@ != "NUM"@,
        "LEFT_CTRL"@ != "ALT_GR"@,
        "RIGHT_CTRL"@ != "LEFT_SHIFT"@,
        "RIGHT_CTRL"@ != "RIGHT_SHIFT"@,
        "RIGHT_CTRL"@ != "CAPS"@,
        "RIGHT_CTRL"@ != "NUM"@,
        "RIGHT_CTRL"@ != "ALT_GR"@,
        "LEFT_SHIFT"@ != "RIGHT_SHIFT"@,
        "LEFT_SHIFT"@ != "CAPS"@,
        "LEFT_SHIFT"@ != "NUM"@,
        "LEFT_SHIFT"@ != "ALT_GR"@,
        "RIGHT_SHIFT"@ != "CAPS"@,
        "RIGHT_SHIFT"@ != "NUM"@,
        "RIGHT_SHIFT"@ != "ALT_GR"@,
        "CAPS"@ != "NUM"@,
        "CAPS"@ != "ALT_GR"@,
        "NUM"@ != "ALT_GR"@,
{
    reveal_strlit("NONE");
    reveal_strlit("SHIFT");
    reveal_strlit("ALT");
    reveal_strlit("CTRL");
    reveal_strlit("META");
    reveal_strlit("LEFT_ALT");
    reveal_strlit("RIGHT_ALT");
    reveal_strlit("LEFT_CTRL");
    reveal_strlit("RIGHT_CTRL");
    reveal_strlit("LEFT_SHIFT");
    reveal_strlit("RIGHT_SHIFT");
    reveal_strlit("CAPS");
    reveal_strlit("NUM");
    reveal_strlit("ALT_GR");
    assert("NONE"@.len() == 4);
    assert("SHIFT"@.len() == 5);
    assert("ALT"@.len() == 3);
    assert("CTRL"@.len() == 4);
    assert("META"@.len() == 4);
    assert("LEFT_ALT"@.len() == 8);
    assert("RIGHT_ALT"@.len() == 9);
    assert("LEFT_CTRL"@.len() == 9);
    assert("RIGHT_CTRL"@.len() == 10);
    assert("LEFT_SHIFT"@.len() == 10);
    assert("RIGHT_SHIFT"@.len() == 11);
    assert("CAPS"@.len() == 4);
    assert("NUM"@.len() == 3);
    assert("ALT_GR"@.len() == 6);
}

/// Two sets of modifiers that hold the same modifiers are the same set.
proof fn lemma_same_flags_same_bits(a: u32, b: u32)
    by (bit_vector)
    requires
        a & !ALL == 0,
        b & !ALL == 0,
        (a & SHIFT == SHIFT) == (b & SHIFT == SHIFT),
        (a & ALT == ALT) == (b & ALT == ALT),
        (a & CTRL == CTRL) == (b & CTRL == CTRL),
        (a & META == META) == (b & META == META),
        (a & LEFT_ALT == LEFT_ALT) == (b & LEFT_ALT == LEFT_ALT),
        (a & RIGHT_ALT == RIGHT_ALT) == (b & RIGHT_ALT == RIGHT_ALT),
        (a & LEFT_CTRL == LEFT_CTRL) == (b & LEFT_CTRL == LEFT_CTRL),
        (a & RIGHT_CTRL == RIGHT_CTRL) == (b & RIGHT_CTRL == RIGHT_CTRL),
        (a & LEFT_SHIFT == LEFT_SHIFT) == (b & LEFT_SHIFT == LEFT_SHIFT),
        (a & RIGHT_SHIFT == RIGHT_SHIFT) == (b & RIGHT_SHIFT == RIGHT_SHIFT),
        (a & CAPS == CAPS) == (b & CAPS == CAPS),
        (a & NUM == NUM) == (b & NUM == NUM),
        (a & ALT_GR == ALT_GR) == (b & ALT_GR == ALT_GR),
    ensures
        a == b,
        a == 0 ==> a & SHIFT != SHIFT && a & ALT != ALT && a & CTRL != CTRL && a & META != META
            && a & LEFT_ALT != LEFT_ALT && a & RIGHT_ALT != RIGHT_ALT && a & LEFT_CTRL != LEFT_CTRL
            && a & RIGHT_CTRL != RIGHT_CTRL && a & LEFT_SHIFT != LEFT_SHIFT && a & RIGHT_SHIFT
            != RIGHT_SHIFT && a & CAPS != CAPS && a & NUM != NUM && a & ALT_GR != ALT_GR,
{
}

/// What the text of a set names: `NONE` for the empty set, and the name of
/// each modifier that the set holds.
proof fn lemma_names_of_text(m: Modifiers, word: Seq<char>)
    requires
        word.len() > 0,
    ensures
        names(m.spec_to_string(), word) == ((m.bits == 0 && "NONE"@ == word)
            || (m.has(SHIFT) && "SHIFT"@ == word)
            || (m.has(ALT) && "ALT"@ == word)
            || (m.has(CTRL) && "CTRL"@ == word)
            || (m.has(META) && "META"@ == word)
            || (m.has(LEFT_ALT) && "LEFT_ALT"@ == word)
            || (m.has(RIGHT_ALT) && "RIGHT_ALT"@ == word)
            || (m.has(LEFT_CTRL) && "LEFT_CTRL"@ == word)
            || (m.has(RIGHT_CTRL) && "RIGHT_CTRL"@ == word)
            || (m.has(LEFT_SHIFT) && "LEFT_SHIFT"@ == word)
            || (m.has(RIGHT_SHIFT) && "RIGHT_SHIFT"@ == word)
            || (m.has(CAPS) && "CAPS"@ == word)
            || (m.has(NUM) && "NUM"@ == word)
            || (m.has(ALT_GR) && "ALT_GR"@ == word)),
{
    lemma_labels();
    let start = if m.bits == 0 {
        "NONE"@
    } else {
        Seq::<char>::empty()
    };
    assert(start == with_label(Seq::<char>::empty(), m.bits == 0, "NONE"@));
    lemma_names_with_label(Seq::<char>::empty(), m.bits == 0, "NONE"@, word);
    let t0 = start;
    let t1 = with_label(t0, m.has(SHIFT), "SHIFT"@);
    lemma_names_with_label(t0, m.has(SHIFT), "SHIFT"@, word);
    let t2 = with_label(t1, m.has(ALT), "ALT"@);
    lemma_names_with_label(t1, m.has(ALT), "ALT"@, word);
    let t3 = with_label(t2, m.has(CTRL), "CTRL"@);
    lemma_names_with_label(t2, m.has(CTRL), "CTRL"@, word);
    let t4 = with_label(t3, m.has(META), "META"@);
    lemma_names_with_label(t3, m.has(META), "META"@, word);
    let t5 = with_label(t4, m.has(LEFT_ALT), "LEFT_ALT"@);
    lemma_names_with_label(t4, m.has(LEFT_ALT), "LEFT_ALT"@, word);
    let t6 = with_label(t5, m.has(RIGHT_ALT), "RIGHT_ALT"@);
    lemma_names_with_label(t5, m.has(RIGHT_ALT), "RIGHT_ALT"@, word);
    let t7 = with_label(t6, m.has(LEFT_CTRL), "LEFT_CTRL"@);
    lemma_names_with_label(t6, m.has(LEFT_CTRL), "LEFT_CTRL"@, word);
    let t8 = with_label(t7, m.has(RIGHT_CTRL), "RIGHT_CTRL"@);
    lemma_names_with_label(t7, m.has(RIGHT_CTRL), "RIGHT_CTRL"@, word);
    let t9 = with_label(t8, m.has(LEFT_SHIFT), "LEFT_SHIFT"@);
    lemma_names_with_label(t8, m.has(LEFT_SHIFT), "LEFT_SHIFT"@, word);
    let t10 = with_label(t9, m.has(RIGHT_SHIFT), "RIGHT_SHIFT"@);
    lemma_names_with_label(t9, m.has(RIGHT_SHIFT), "RIGHT_SHIFT"@, word);
    let t11 = with_label(t10, m.has(CAPS), "CAPS"@);
    lemma_names_with_label(t10, m.has(CAPS), "CAPS"@, word);
    let t12 = with_label(t11, m.has(NUM), "NUM"@);
    lemma_names_with_label(t11, m.has(NUM), "NUM"@, word);
    let t13 = with_label(t12, m.has(ALT_GR), "ALT_GR"@);
    lemma_names_with_label(t12, m.has(ALT_GR), "ALT_GR"@, word);
    assert(m.spec_to_string() == t13);
}

/// A set of modifiers is read back from its own text.
pub proof fn lemma_text_round_trip(m: Modifiers, text: String)
    requires
        m.is_valid(),
        text@ == m.spec_to_string(),
    ensures
        named_bits(text@) == m.bits,
        <Modifiers as TryFromSpec<String>>::try_from_spec(text) == Ok::<Modifiers, String>(m),
{
    lemma_labels();
    lemma_names_of_text(m, "SHIFT"@);
    lemma_names_of_text(m, "ALT"@);
    lemma_names_of_text(m, "CTRL"@);
    lemma_names_of_text(m, "META"@);
    lemma_names_of_text(m, "LEFT_ALT"@);
    lemma_names_of_text(m, "RIGHT_ALT"@);
    lemma_names_of_text(m, "LEFT_CTRL"@);
    lemma_names_of_text(m, "RIGHT_CTRL"@);
    lemma_names_of_text(m, "LEFT_SHIFT"@);
    lemma_names_of_text(m, "RIGHT_SHIFT"@);
    lemma_names_of_text(m, "CAPS"@);
    lemma_names_of_text(m, "NUM"@);
    lemma_names_of_text(m, "ALT_GR"@);
    lemma_named_bits(text@);
    lemma_same_flags_same_bits(m.bits, m.bits);
    lemma_same_flags_same_bits(named_bits(text@), m.bits);
}

} // verus!
