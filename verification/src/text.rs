//! Texts as sequences of characters: finding and replacing in them, and
//! writing numbers as them.

use vstd::prelude::*;

verus! {

/// `text` with each occurrence of `from` replaced by `to`: the occurrences
/// are taken from the left, and one that overlaps an earlier one is none.
/// Where `from` is empty the text stays as it is.
pub open spec fn replaced(text: Seq<char>, from: Seq<char>, to: Seq<char>) -> Seq<char>
    decreases text.len(),
{
    if from.len() == 0 || text.len() < from.len() {
        text
    } else if from.is_prefix_of(text) {
        to + replaced(text.skip(from.len() as int), from, to)
    } else {
        seq![text[0]] + replaced(text.skip(1), from, to)
    }
}

/// The character for a digit below ten.
pub open spec fn digit(n: int) -> char {
    if n == 0 {
        '0'
    } else if n == 1 {
        '1'
    } else if n == 2 {
        '2'
    } else if n == 3 {
        '3'
    } else if n == 4 {
        '4'
    } else if n == 5 {
        '5'
    } else if n == 6 {
        '6'
    } else if n == 7 {
        '7'
    } else if n == 8 {
        '8'
    } else {
        '9'
    }
}

/// A natural number in decimal digits, without leading zeros.
pub open spec fn digits(n: nat) -> Seq<char>
    decreases n,
{
    if n < 10 {
        seq![digit(n as int)]
    } else {
        digits(n / 10).push(digit((n % 10) as int))
    }
}

/// An integer in decimal digits, with a minus sign before a negative one.
pub open spec fn decimal_text(n: int) -> Seq<char> {
    if n < 0 {
        seq!['-'] + digits((-n) as nat)
    } else {
        digits(n as nat)
    }
}

/// The text of one digit.
fn digit_text(d: u64) -> (text: &'static str)
    requires
        d < 10,
    ensures
        text@ == seq![digit(d as int)],
{
    proof {
        reveal_strlit("0");
        reveal_strlit("1");
        reveal_strlit("2");
        reveal_strlit("3");
        reveal_strlit("4");
        reveal_strlit("5");
        reveal_strlit("6");
        reveal_strlit("7");
        reveal_strlit("8");
        reveal_strlit("9");
    }
    let text: &'static str = match d {
        0 => "0",
        1 => "1",
        2 => "2",
        3 => "3",
        4 => "4",
        5 => "5",
        6 => "6",
        7 => "7",
        8 => "8",
        _ => "9",
    };
    assert(text@ =~= seq![digit(d as int)]);
    text
}

/// Writes a natural number in decimal digits.
fn digits_of(n: u64) -> (text: String)
    ensures
        text@ == digits(n as nat),
    decreases n,
{
    if n < 10 {
        digit_text(n).to_owned()
    } else {
        let mut text = digits_of(n / 10);
        text.append(digit_text(n % 10));
        assert(text@ =~= digits((n / 10) as nat).push(digit((n % 10) as int)));
        text
    }
}

/// Writes an integer in decimal digits, as it is written into a statement.
pub fn decimal(n: i64) -> (text: String)
    ensures
        text@ == decimal_text(n as int),
{
    if n < 0 {
        proof {
            reveal_strlit("-");
        }
        let magnitude: u64 = (-(n as i128)) as u64;
        let mut text = "-".to_owned();
        text.append(digits_of(magnitude).as_str());
        assert(text@ =~= seq!['-'] + digits((-n) as nat));
        text
    } else {
        digits_of(n as u64)
    }
}

/// Calls `str::starts_with` with a text as the pattern. Trusted: the result
/// tells whether `text` begins with the characters of `prefix`.
#[verifier::external_body]
pub(crate) fn starts_with(text: &str, prefix: &str) -> (b: bool)
    ensures
        b == prefix@.is_prefix_of(text@),
{
    text.starts_with(prefix)
}

/// What `str::to_lowercase` of the standard library makes of a text: its
/// lowercase equivalent by the tables of Unicode.
pub uninterp spec fn lowercased(text: Seq<char>) -> Seq<char>;

/// `needle` stands somewhere in `text`, character for character.
pub open spec fn occurs_in(needle: Seq<char>, text: Seq<char>) -> bool {
    exists|i: int|
        0 <= i <= text.len() - needle.len() && #[trigger] text.subrange(i, i + needle.len())
            == needle
}

/// Calls `str::to_lowercase`. Trusted: the result hangs on the text alone.
#[verifier::external_body]
pub(crate) fn to_lowercase(text: &str) -> (r: String)
    ensures
        r@ == lowercased(text@),
{
    text.to_lowercase()
}

/// Calls `str::contains` with a text as the pattern. Trusted: the result
/// tells whether `needle` stands somewhere in `text`.
#[verifier::external_body]
pub(crate) fn contains(text: &str, needle: &str) -> (b: bool)
    ensures
        b == occurs_in(needle@, text@),
{
    text.contains(needle)
}

/// Calls `str::replace` with a text as the pattern. Trusted: the result is
/// `text` with every match of `from` replaced by `to`, the matches being
/// the disjoint occurrences of `from` found from the left.
#[verifier::external_body]
pub(crate) fn replace_all(text: &str, from: &str, to: &str) -> (r: String)
    requires
        from@.len() > 0,
    ensures
        r@ == replaced(text@, from@, to@),
{
    text.replace(from, to)
}

/// A text that does not hold the first character of `from` has no
/// occurrence of `from`, and is replaced by itself.
pub proof fn replaced_keeps_text_without_first_char(text: Seq<char>, from: Seq<char>, to: Seq<char>)
    requires
        from.len() > 0,
        !text.contains(from[0]),
    ensures
        replaced(text, from, to) == text,
    decreases text.len(),
{
    if text.len() >= from.len() {
        assert(text[0] != from[0]) by {
            assert(text.contains(text[0]));
        }
        assert(!from.is_prefix_of(text)) by {
            if from.is_prefix_of(text) {
                assert(text.subrange(0, from.len() as int)[0] == from[0]);
            }
        }
        let rest: Seq<char> = text.skip(1);
        assert(!rest.contains(from[0])) by {
            if rest.contains(from[0]) {
                let i: int = choose|i: int| 0 <= i < rest.len() && rest[i] == from[0];
                assert(text[i + 1] == from[0]);
            }
        }
        replaced_keeps_text_without_first_char(rest, from, to);
        assert(seq![text[0]] + rest =~= text);
    }
}

} // verus!
