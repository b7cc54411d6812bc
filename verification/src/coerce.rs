//! The engine's inherited scalar-coercion rules for string values, stated
//! exactly for ASCII strings. The engine lower-cases a string before testing
//! it against its truth words; on ASCII text that folding is plain ASCII
//! case-folding, so the rules below are exact there, and nothing is claimed
//! of non-ASCII text.

use vstd::prelude::*;

use crate::errors::ConfError;
use crate::errors::got_type_mismatch;

verus! {

/// An ASCII character.
pub open spec fn is_ascii_char(c: char) -> bool {
    (c as u32) < 128
}

/// Every character is ASCII.
pub open spec fn ascii_seq(s: Seq<char>) -> bool {
    forall|i: int| 0 <= i < s.len() ==> is_ascii_char(#[trigger] s[i])
}

/// `s` equals `w` up to ASCII case, `w` being already lower-case.
pub open spec fn caseless_is(s: Seq<char>, w: Seq<char>) -> bool {
    &&& s.len() == w.len()
    &&& forall|i: int|
        0 <= i < s.len() ==> ((#[trigger] s[i]) == w[i] || ('A' <= s[i] && s[i] <= 'Z' && s[i]
            as u32 + 32 == w[i] as u32))
}

pub open spec fn is_ascii_digit(c: char) -> bool {
    '0' <= c && c <= '9'
}

pub open spec fn digit_val(c: char) -> int {
    c as u32 - '0' as u32
}

pub open spec fn all_digits(s: Seq<char>) -> bool {
    &&& s.len() > 0
    &&& forall|i: int| 0 <= i < s.len() ==> is_ascii_digit(#[trigger] s[i])
}

/// The value of a sequence of decimal digits.
pub open spec fn digits_val(s: Seq<char>) -> int
    decreases s.len(),
{
    if s.len() == 0 {
        0
    } else {
        digits_val(s.drop_last()) * 10 + digit_val(s.last())
    }
}

/// The canonical decimal rendering of `n`: digits without a redundant
/// leading zero.
pub open spec fn is_canon_dec(s: Seq<char>, n: int) -> bool {
    &&& all_digits(s)
    &&& digits_val(s) == n
    &&& (s.len() == 1 || s[0] != '0')
}

/// What `str::parse::<i64>` yields: an optional sign, then one or more ASCII
/// decimal digits, the value within the 64-bit signed range; anything else is
/// a parse failure.
pub open spec fn parsed_i64(s: Seq<char>) -> Option<i64> {
    let ds = if s.len() > 0 && (s[0] == '+' || s[0] == '-') {
        s.skip(1)
    } else {
        s
    };
    if all_digits(ds) {
        let v = if s.len() > 0 && s[0] == '-' {
            -digits_val(ds)
        } else {
            digits_val(ds)
        };
        if i64::MIN <= v && v <= i64::MAX {
            Option::Some(v as i64)
        } else {
            Option::None
        }
    } else {
        Option::None
    }
}

/// The words the engine reads as one when an integer is asked for.
pub open spec fn int_truth_word(s: Seq<char>) -> bool {
    caseless_is(s, "true"@) || caseless_is(s, "on"@) || caseless_is(s, "yes"@)
}

/// The words the engine reads as zero when an integer is asked for.
pub open spec fn int_false_word(s: Seq<char>) -> bool {
    caseless_is(s, "false"@) || caseless_is(s, "off"@) || caseless_is(s, "no"@)
}

/// The engine's string-to-integer rule: truth words first, then decimal
/// parse.
pub open spec fn int_coercion(s: Seq<char>) -> Option<i64> {
    if int_truth_word(s) {
        Option::Some(1i64)
    } else if int_false_word(s) {
        Option::Some(0i64)
    } else {
        parsed_i64(s)
    }
}

/// The engine's string-to-boolean rule: eight fixed truth words, nothing
/// else.
pub open spec fn bool_coercion(s: Seq<char>) -> Option<bool> {
    if caseless_is(s, "1"@) || int_truth_word(s) {
        Option::Some(true)
    } else if caseless_is(s, "0"@) || int_false_word(s) {
        Option::Some(false)
    } else {
        Option::None
    }
}

/// What an integer read returns on a key holding the string `s`.
pub open spec fn int_read_of_string(s: Seq<char>, r: Result<i64, ConfError>) -> bool {
    &&& (r is Ok || got_type_mismatch(r))
    &&& ascii_seq(s) ==> match int_coercion(s) {
        Option::Some(n) => r == Ok::<i64, ConfError>(n),
        Option::None => got_type_mismatch(r),
    }
}

/// What a boolean read returns on a key holding the string `s`.
pub open spec fn bool_read_of_string(s: Seq<char>, r: Result<bool, ConfError>) -> bool {
    &&& (r is Ok || got_type_mismatch(r))
    &&& ascii_seq(s) ==> match bool_coercion(s) {
        Option::Some(b) => r == Ok::<bool, ConfError>(b),
        Option::None => got_type_mismatch(r),
    }
}

} // verus!
