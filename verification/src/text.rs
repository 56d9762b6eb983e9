//! What the library needs of text: comparison, and numbers written in
//! decimal digits.

use vstd::prelude::*;
use vstd::utf8::{decode_utf8, valid_utf8};

verus! {

/// The number that the decimal digits of `s` spell. A character that is no
/// digit counts as whatever its distance from `'0'` is, so the value is
/// meant for text of which [`all_digits`] holds.
pub open spec fn digits_value(s: Seq<char>) -> nat
    decreases s.len(),
{
    if s.len() == 0 {
        0
    } else {
        (digits_value(s.drop_last()) * 10 + (s.last() as int - '0' as int)) as nat
    }
}

/// Whether `s` holds nothing but the digits `0` to `9`.
pub open spec fn all_digits(s: Seq<char>) -> bool {
    forall|i: int| 0 <= i < s.len() ==> '0' <= #[trigger] s[i] <= '9'
}

/// The number up to `max` that `s` is the decimal writing of: digits only,
/// at least one, with an optional `+` in front.
pub open spec fn parse_unsigned(s: Seq<char>, max: nat) -> Option<nat> {
    let digits = if s.len() > 0 && s[0] == '+' {
        s.skip(1)
    } else {
        s
    };
    if digits.len() > 0 && all_digits(digits) && digits_value(digits) <= max {
        Some(digits_value(digits))
    } else {
        None
    }
}

/// Whether two pieces of text hold the same characters.
///
/// This is `str::eq` of the standard library, which compares the two
/// strings byte by byte; two strings have the same bytes exactly when they
/// have the same characters.
#[verifier::external_body]
pub(crate) fn str_eq(a: &str, b: &str) -> (same: bool)
    ensures
        same == (a@ == b@),
{
    a.eq(b)
}

/// Reads a number of 16 bits from its decimal writing.
///
/// This is `str::parse::<u16>` of the standard library, which takes an
/// optional `+` followed by decimal digits and nothing else, and refuses
/// the empty string and a number above `u16::MAX`.
#[verifier::external_body]
pub(crate) fn parse_u16(text: &str) -> (number: Option<u16>)
    ensures
        match parse_unsigned(text@, u16::MAX as nat) {
            Some(n) => number == Some(n as u16),
            None => number is None,
        },
{
    text.parse::<u16>().ok()
}

/// Reads a machine word from its decimal writing.
///
/// This is `str::parse::<usize>` of the standard library, which takes an
/// optional `+` followed by decimal digits and nothing else, and refuses
/// the empty string and a number above `usize::MAX`.
#[verifier::external_body]
pub(crate) fn parse_usize(text: &str) -> (number: Option<usize>)
    ensures
        match parse_unsigned(text@, usize::MAX as nat) {
            Some(n) => number == Some(n as usize),
            None => number is None,
        },
{
    text.parse::<usize>().ok()
}

/// The place of the first `delimiter` in `s` from `from` on.
pub open spec fn first_index(s: Seq<char>, delimiter: char, from: int) -> Option<int>
    decreases s.len() - from,
{
    if from < 0 || from >= s.len() {
        None
    } else if s[from] == delimiter {
        Some(from)
    } else {
        first_index(s, delimiter, from + 1)
    }
}

/// What lies before and behind the first `delimiter` in `s`.
pub open spec fn split_at_first(s: Seq<char>, delimiter: char) -> Option<(Seq<char>, Seq<char>)> {
    match first_index(s, delimiter, 0) {
        Some(at) => Some((s.take(at), s.skip(at + 1))),
        None => None,
    }
}

/// Splits text at the first `delimiter`.
///
/// This is `str::split_once` of the standard library, which hands out what
/// lies before the first occurrence of the delimiter and what lies behind
/// it, and nothing where the delimiter does not occur.
#[verifier::external_body]
pub(crate) fn split_once<'a>(text: &'a str, delimiter: char) -> (parts: Option<(&'a str, &'a str)>)
    ensures
        match split_at_first(text@, delimiter) {
            Some((before, behind)) => parts matches Some(found) && found.0@ == before && found.1@
                == behind,
            None => parts is None,
        },
{
    text.split_once(delimiter)
}

/// Reads bytes as text.
///
/// This is `str::from_utf8` of the standard library, which hands out the
/// bytes as text where they are well-formed UTF-8, and nothing where they
/// are not.
#[verifier::external_body]
pub(crate) fn from_utf8<'a>(bytes: &'a [u8]) -> (text: Option<&'a str>)
    ensures
        match text {
            Some(found) => valid_utf8(bytes@) && found@ == decode_utf8(bytes@),
            None => !valid_utf8(bytes@),
        },
{
    std::str::from_utf8(bytes).ok()
}

} // verus!
