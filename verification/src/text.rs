//! Small text helpers shared by the other modules.

use vstd::prelude::*;
use vstd::std_specs::iter::IteratorSpec;
use vstd::string::*;

verus! {

/// The texts of a sequence of strings.
pub open spec fn texts(strings: Seq<String>) -> Seq<Seq<char>> {
    strings.map_values(|text: String| text@)
}

/// The text of a string that may be absent.
pub open spec fn string_view(text: Option<String>) -> Option<Seq<char>> {
    match text {
        Some(text) => Some(text@),
        None => None,
    }
}

/// The text of a string slice that may be absent.
pub open spec fn text_view(text: Option<&str>) -> Option<Seq<char>> {
    match text {
        Some(text) => Some(text@),
        None => None,
    }
}

/// The character that stands for the decimal digit `d`.
pub open spec fn digit_char(d: nat) -> char
    recommends
        d < 10,
{
    if d == 0 {
        '0'
    } else if d == 1 {
        '1'
    } else if d == 2 {
        '2'
    } else if d == 3 {
        '3'
    } else if d == 4 {
        '4'
    } else if d == 5 {
        '5'
    } else if d == 6 {
        '6'
    } else if d == 7 {
        '7'
    } else if d == 8 {
        '8'
    } else {
        '9'
    }
}

/// The decimal numeral of `n`: most significant digit first, no leading zero
/// except for zero itself.
pub open spec fn decimal(n: nat) -> Seq<char>
    decreases n,
{
    if n < 10 {
        seq![digit_char(n)]
    } else {
        decimal(n / 10).push(digit_char(n % 10))
    }
}

fn digit_text(d: u32) -> (s: &'static str)
    requires
        d < 10,
    ensures
        s@ == seq![digit_char(d as nat)],
{
    proof {
        reveal_strlit("0");
        reveal_strlit("1");
        reveal_strlit("2");
        reveal_strlit("3");
        reveal_strlit("4");
        reveal_strlit("5");
        reveal_strlit("6");
        reveal_strlit("7");
        reveal_strlit("8");
        reveal_strlit("9");
    }
    let s: &'static str = if d == 0 {
        "0"
    } else if d == 1 {
        "1"
    } else if d == 2 {
        "2"
    } else if d == 3 {
        "3"
    } else if d == 4 {
        "4"
    } else if d == 5 {
        "5"
    } else if d == 6 {
        "6"
    } else if d == 7 {
        "7"
    } else if d == 8 {
        "8"
    } else {
        "9"
    };
    assert(s@ =~= seq![digit_char(d as nat)]);
    s
}

/// Writes `n` in decimal.
pub fn decimal_string(n: u32) -> (s: String)
    ensures
        s@ == decimal(n as nat),
    decreases n,
{
    if n < 10 {
        String::from_str(digit_text(n))
    } else {
        let mut s = decimal_string(n / 10);
        s.append(digit_text(n % 10));
        assert(s@ =~= decimal(n as nat));
        s
    }
}

/// The text `head` followed by `tail`.
pub fn joined(head: &str, tail: &str) -> (s: String)
    ensures
        s@ == head@ + tail@,
{
    let mut s = String::from_str(head);
    s.append(tail);
    s
}

/// Whether the standard library counts `c` as whitespace.
pub uninterp spec fn white_space(c: char) -> bool;

/// Calls `char::is_whitespace`.
///
/// Nothing is claimed of which characters are whitespace: the contract only
/// gives the answer a name.
#[verifier::external_body]
fn is_white_space(c: char) -> (space: bool)
    ensures
        space == white_space(c),
{
    c.is_whitespace()
}

/// How many characters of whitespace `text` begins with.
pub open spec fn leading_space(text: Seq<char>) -> nat
    decreases text.len(),
{
    if text.len() > 0 && white_space(text.first()) {
        1 + leading_space(text.drop_first())
    } else {
        0
    }
}

/// How many characters of whitespace `text` ends with.
pub open spec fn trailing_space(text: Seq<char>) -> nat
    decreases text.len(),
{
    if text.len() > 0 && white_space(text.last()) {
        1 + trailing_space(text.drop_last())
    } else {
        0
    }
}

/// The text without the whitespace at its beginning and at its end.
pub open spec fn trimmed(text: Seq<char>) -> Seq<char> {
    let rest = text.skip(leading_space(text) as int);
    rest.take(rest.len() - trailing_space(rest))
}

proof fn lemma_leading_space(text: Seq<char>, from: int)
    requires
        0 <= from <= text.len(),
        forall|i: int| 0 <= i < from ==> white_space(#[trigger] text[i]),
        from < text.len() ==> !white_space(text[from]),
    ensures
        leading_space(text) == from,
    decreases from,
{
    if from > 0 {
        let rest = text.drop_first();
        assert forall|i: int| 0 <= i < from - 1 implies white_space(#[trigger] rest[i]) by {
            assert(rest[i] == text[i + 1]);
        }
        lemma_leading_space(rest, from - 1);
    }
}

proof fn lemma_trailing_space(text: Seq<char>, to: int)
    requires
        0 <= to <= text.len(),
        forall|i: int| to <= i < text.len() ==> white_space(#[trigger] text[i]),
        to > 0 ==> !white_space(text[to - 1]),
    ensures
        trailing_space(text) == text.len() - to,
    decreases text.len() - to,
{
    if to < text.len() {
        let rest = text.drop_last();
        assert forall|i: int| to <= i < rest.len() implies white_space(#[trigger] rest[i]) by {
            assert(rest[i] == text[i]);
        }
        lemma_trailing_space(rest, to);
    }
}

/// Removes the whitespace at the beginning and at the end of `text`.
pub fn trim(text: &str) -> (kept: String)
    ensures
        kept@ == trimmed(text@),
{
    let mut chars = text.chars();
    let mut index: usize = 0;
    let mut from: usize = 0;
    let mut to: usize = 0;
    let mut found: bool = false;
    let total: usize = text.unicode_len();
    loop
        invariant
            chars.obeys_prophetic_iter_laws(),
            index <= total,
            total == text@.len(),
            chars.remaining() == text@.skip(index as int),
            forall|i: int| 0 <= i < index && !found ==> white_space(#[trigger] text@[i]),
            found ==> 0 <= from < to <= index,
            found ==> forall|i: int| 0 <= i < from ==> white_space(#[trigger] text@[i]),
            found ==> !white_space(text@[from as int]),
            found ==> !white_space(text@[to - 1]),
            found ==> forall|i: int| to <= i < index ==> white_space(#[trigger] text@[i]),
        ensures
            index == total,
            forall|i: int| 0 <= i < index && !found ==> white_space(#[trigger] text@[i]),
            found ==> 0 <= from < to <= index,
            found ==> forall|i: int| 0 <= i < from ==> white_space(#[trigger] text@[i]),
            found ==> !white_space(text@[from as int]),
            found ==> !white_space(text@[to - 1]),
            found ==> forall|i: int| to <= i < index ==> white_space(#[trigger] text@[i]),
        decreases total - index,
    {
        let ghost before = chars.remaining();
        match chars.next() {
            Some(c) => {
                assert(before.len() > 0);
                assert(c == text@[index as int]);
                if !is_white_space(c) {
                    if !found {
                        from = index;
                        found = true;
                    }
                    to = index + 1;
                }
                index = index + 1;
                assert(chars.remaining() =~= text@.skip(index as int));
            },
            None => {
                assert(before.len() == 0);
                break ;
            },
        }
    }
    if found {
        let kept = text.substring_char(from, to);
        proof {
            lemma_leading_space(text@, from as int);
            let rest = text@.skip(from as int);
            assert forall|i: int| to - from <= i < rest.len() implies white_space(
                #[trigger] rest[i],
            ) by {
                assert(rest[i] == text@[i + from]);
            }
            assert(rest[to - from - 1] == text@[to - 1]);
            lemma_trailing_space(rest, to - from);
            assert(rest.take(to - from) =~= text@.subrange(from as int, to as int));
        }
        String::from_str(kept)
    } else {
        proof {
            lemma_leading_space(text@, total as int);
            assert(trimmed(text@) =~= Seq::<char>::empty());
        }
        String::new()
    }
}

} // verus!
