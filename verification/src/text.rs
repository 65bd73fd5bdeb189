//! Small verified tools for text: comparing, splitting, reading integers.

use vstd::prelude::*;
use vstd::string::{StrSliceExecFns, StringSliceAdditionalSpecFns};
use vstd::utf8::{encode_utf8, encode_utf8_decode_utf8};

use crate::seq_find::{first_where, lemma_first_where_is};

verus! {

/// Tells whether two pieces of text hold the same characters.
pub fn same_text(a: &str, b: &str) -> (same: bool)
    ensures
        same == (a@ == b@),
{
    let left = a.as_bytes();
    let right = b.as_bytes();
    proof {
        // Text is determined by its encoding, so comparing bytes compares characters.
        encode_utf8_decode_utf8(a@);
        encode_utf8_decode_utf8(b@);
    }
    if left.len() != right.len() {
        return false;
    }
    let mut i: usize = 0;
    while i < left.len()
        invariant
            i <= left@.len(),
            left@.len() == right@.len(),
            left@ == encode_utf8(a@),
            right@ == encode_utf8(b@),
            forall|k: int| 0 <= k < i ==> left@[k] == right@[k],
        decreases left@.len() - i,
    {
        if left[i] != right[i] {
            return false;
        }
        i += 1;
    }
    assert(left@ =~= right@);
    true
}

/// The characters of a piece of text, in order.
pub fn chars_of(text: &str) -> (chars: Vec<char>)
    ensures
        chars@ == text@,
{
    let mut chars: Vec<char> = Vec::new();
    for c in it: text.chars()
        invariant
            it.seq() == text@,
            chars@ == text@.take(it.index()),
    {
        chars.push(c);
    }
    chars
}

/// The lower-case form of a text, as `str::to_lowercase` gives it.
pub uninterp spec fn lowercase(text: Seq<char>) -> Seq<char>;

/// `str::to_lowercase`: the text with every character that has a lower-case
/// form replaced by that form, as Unicode defines it. The contract only gives
/// the result a name: it is a function of the text alone.
#[verifier::external_body]
pub(crate) fn to_lowercase(text: &str) -> (lowered: String)
    ensures
        lowered@ == lowercase(text@),
{
    text.to_lowercase()
}

/// The condition of being the character `separator`.
pub open spec fn is_char(separator: char) -> spec_fn(char) -> bool {
    |c: char| c == separator
}

/// The pieces of `text` between the occurrences of `separator`, in order.
/// There is one piece more than there are separators, and a piece may be
/// empty.
pub open spec fn split_on(text: Seq<char>, separator: char) -> Seq<Seq<char>>
    decreases text.len(),
{
    let at = first_where(text, is_char(separator));
    if 0 <= at < text.len() {
        seq![text.take(at)] + split_on(text.skip(at + 1), separator)
    } else {
        seq![text]
    }
}

/// The texts of a list of pieces.
pub open spec fn pieces_view(pieces: Seq<&str>) -> Seq<Seq<char>> {
    pieces.map_values(|p: &str| p@)
}

/// Cuts `text` at every occurrence of `separator`.
pub fn split<'a>(text: &'a str, separator: char) -> (pieces: Vec<&'a str>)
    ensures
        pieces_view(pieces@) == split_on(text@, separator),
        pieces@.len() >= 1,
{
    let chars = chars_of(text);
    let mut pieces: Vec<&'a str> = Vec::new();
    let mut start: usize = 0;
    let mut i: usize = 0;
    assert(text@.skip(0) =~= text@);
    while i < chars.len()
        invariant
            chars@ == text@,
            start <= i <= chars@.len(),
            forall|k: int| start <= k < i ==> chars@[k] != separator,
            split_on(text@, separator) == pieces_view(pieces@) + split_on(
                text@.skip(start as int),
                separator,
            ),
        decreases chars@.len() - i,
    {
        if chars[i] == separator {
            let piece = text.substring_char(start, i);
            proof {
                let rest = text@.skip(start as int);
                lemma_first_where_is(rest, is_char(separator), i - start);
                assert(rest.take(i - start) =~= text@.subrange(start as int, i as int));
                assert(rest.skip(i - start + 1) =~= text@.skip(i + 1));
            }
            pieces.push(piece);
            start = i + 1;
        }
        i += 1;
    }
    let piece = text.substring_char(start, chars.len());
    proof {
        let rest = text@.skip(start as int);
        lemma_first_where_is(rest, is_char(separator), rest.len() as int);
    }
    pieces.push(piece);
    pieces
}

/// Whether a character is one of the ten decimal digits.
pub open spec fn is_digit(c: char) -> bool {
    '0' <= c <= '9'
}

/// Whether a text is made of decimal digits only.
pub open spec fn all_digits(text: Seq<char>) -> bool {
    forall|k: int| 0 <= k < text.len() ==> is_digit(#[trigger] text[k])
}

/// The number that a text of decimal digits writes.
pub open spec fn decimal_value(digits: Seq<char>) -> int
    decreases digits.len(),
{
    if digits.len() == 0 {
        0
    } else {
        10 * decimal_value(digits.drop_last()) + (digits.last() as int - '0' as int)
    }
}

/// The 32-bit integer that a text writes in decimal: an optional sign, then
/// at least one digit and nothing else, the number being in range. This is
/// what `str::parse` reads as an `i32`.
pub open spec fn i32_of(text: Seq<char>) -> Option<i32> {
    let signed = text.len() > 0 && (text[0] == '-' || text[0] == '+');
    let digits = if signed {
        text.skip(1)
    } else {
        text
    };
    let value = if text.len() > 0 && text[0] == '-' {
        -decimal_value(digits)
    } else {
        decimal_value(digits)
    };
    if digits.len() > 0 && all_digits(digits) && i32::MIN <= value <= i32::MAX {
        Some(value as i32)
    } else {
        None
    }
}

/// A text of digits writes a number that is not negative and not smaller
/// than the number that any of its beginnings writes.
pub proof fn lemma_decimal_value_grows(digits: Seq<char>, upto: int)
    requires
        all_digits(digits),
        0 <= upto <= digits.len(),
    ensures
        0 <= decimal_value(digits.take(upto)) <= decimal_value(digits),
    decreases digits.len() - upto,
{
    lemma_decimal_value_bounds(digits.take(upto));
    if upto < digits.len() {
        assert(digits.take(upto + 1).drop_last() =~= digits.take(upto));
        lemma_decimal_value_grows(digits, upto + 1);
    } else {
        assert(digits.take(upto) =~= digits);
    }
}

/// A text of digits writes a number that is not negative.
pub proof fn lemma_decimal_value_bounds(digits: Seq<char>)
    requires
        all_digits(digits),
    ensures
        0 <= decimal_value(digits),
    decreases digits.len(),
{
    if digits.len() > 0 {
        lemma_decimal_value_bounds(digits.drop_last());
    }
}

/// Reads a 32-bit integer written in decimal.
pub fn parse_i32(text: &str) -> (number: Option<i32>)
    ensures
        number == i32_of(text@),
{
    let chars = chars_of(text);
    if chars.len() == 0 {
        return None;
    }
    let negative = chars[0] == '-';
    let start: usize = if chars[0] == '-' || chars[0] == '+' {
        1
    } else {
        0
    };
    let ghost digits = if start == 1 {
        text@.skip(1)
    } else {
        text@
    };
    if start == chars.len() {
        return None;
    }
    let mut magnitude: i64 = 0;
    let mut i: usize = start;
    while i < chars.len()
        invariant
            chars@ == text@,
            text@.len() > 0,
            start == (if text@[0] == '-' || text@[0] == '+' {
                1usize
            } else {
                0usize
            }),
            start <= i <= chars@.len(),
            digits == text@.skip(start as int),
            all_digits(digits.take(i - start)),
            magnitude == decimal_value(digits.take(i - start)),
            0 <= magnitude <= 2147483648,
        decreases chars@.len() - i,
    {
        let c = chars[i];
        assert(digits[i - start] == c);
        if !('0' <= c && c <= '9') {
            return None;
        }
        let ghost before = digits.take(i - start);
        let ghost longer = digits.take(i - start + 1);
        proof {
            assert(longer.drop_last() =~= before);
        }
        magnitude = magnitude * 10 + ((c as u32 - '0' as u32) as i64);
        if magnitude > 2147483648 {
            proof {
                if all_digits(digits) {
                    lemma_decimal_value_grows(digits, i - start + 1);
                }
                assert(text@.skip(0) =~= text@);
            }
            return None;
        }
        i += 1;
    }
    assert(digits.take(digits.len() as int) =~= digits);
    if negative {
        Some((-magnitude) as i32)
    } else if magnitude <= 2147483647 {
        Some(magnitude as i32)
    } else {
        None
    }
}

} // verus!
