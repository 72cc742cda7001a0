//! Reading a carrier frequency from text.
//!
//! A frequency is written in hertz as a decimal number: an optional `+`
//! followed by one or more of the digits `0` to `9`, with a value that fits
//! an unsigned 64-bit integer. Nothing else is a frequency: no sign other
//! than `+`, no blanks, no separators, no unit.

use vstd::prelude::*;
use vstd::std_specs::iter::IteratorSpec;
use crate::error::ConfigError;

verus! {

/// Whether `c` is one of the digits `0` to `9`.
pub open spec fn is_digit(c: char) -> bool {
    '0' as int <= c as int <= '9' as int
}

/// The number a digit stands for.
pub open spec fn digit_value(c: char) -> nat {
    (c as int - '0' as int) as nat
}

/// Whether `text` consists of digits only.
pub open spec fn all_digits(text: Seq<char>) -> bool {
    forall|i: int| 0 <= i < text.len() ==> is_digit(#[trigger] text[i])
}

/// The number that a run of digits denotes in base ten.
pub open spec fn decimal_value(digits: Seq<char>) -> nat
    decreases digits.len(),
{
    if digits.len() == 0 {
        0
    } else {
        decimal_value(digits.drop_last()) * 10 + digit_value(digits.last())
    }
}

/// The text without its leading `+`, if it has one.
pub open spec fn unsigned_part(text: Seq<char>) -> Seq<char> {
    if text.len() > 0 && text[0] == '+' {
        text.skip(1)
    } else {
        text
    }
}

/// What a text means as a frequency.
pub open spec fn frequency_model(text: Seq<char>) -> Result<u64, ConfigError> {
    let digits = unsigned_part(text);
    if digits.len() > 0 && all_digits(digits) && decimal_value(digits) <= u64::MAX {
        Ok(decimal_value(digits) as u64)
    } else {
        Err(ConfigError::InvalidFrequency)
    }
}

/// A run of digits is worth at least as much as any run it starts with.
proof fn lemma_prefix_value(digits: Seq<char>, n: int)
    requires
        0 <= n <= digits.len(),
    ensures
        decimal_value(digits.take(n)) <= decimal_value(digits),
    decreases digits.len(),
{
    if n == digits.len() {
        assert(digits.take(n) =~= digits);
    } else {
        lemma_prefix_value(digits.drop_last(), n);
        assert(digits.drop_last().take(n) =~= digits.take(n));
    }
}

/// Appends the digit `c` to the number `value`: ten times `value` plus the
/// digit, unless `c` is no digit or the result does not fit.
fn push_digit(value: u64, c: char) -> (pushed: Option<u64>)
    ensures
        pushed matches Some(v) ==> is_digit(c) && v == value * 10 + digit_value(c),
        pushed is None ==> !is_digit(c) || value * 10 + digit_value(c) > u64::MAX,
{
    let digit: u64 = match c {
        '0' => 0,
        '1' => 1,
        '2' => 2,
        '3' => 3,
        '4' => 4,
        '5' => 5,
        '6' => 6,
        '7' => 7,
        '8' => 8,
        '9' => 9,
        _ => {
            return None;
        },
    };
    match value.checked_mul(10) {
        Some(shifted) => shifted.checked_add(digit),
        None => None,
    }
}

/// Reads a frequency in hertz from `text`.
///
/// Succeeds exactly on an optional `+` followed by at least one decimal
/// digit whose value fits 64 bits, and then returns that value. Leading
/// zeros are allowed.
pub fn parse_frequency(text: &str) -> (parsed: Result<u64, ConfigError>)
    ensures
        parsed == frequency_model(text@),
{
    let ghost digits = unsigned_part(text@);
    let ghost mut seen: int = 0;
    let mut value: u64 = 0;
    let mut any = false;
    let mut chars = text.chars();
    match chars.next() {
        None => {
            return Err(ConfigError::InvalidFrequency);
        },
        Some(c) => {
            if c != '+' {
                match push_digit(0, c) {
                    None => {
                        return Err(ConfigError::InvalidFrequency);
                    },
                    Some(v) => {
                        value = v;
                        any = true;
                        proof {
                            seen = 1;
                            assert(decimal_value(digits.take(1).drop_last()) == 0);
                        }
                    },
                }
            }
        },
    }
    loop
        invariant
            digits == unsigned_part(text@),
            0 <= seen <= digits.len(),
            any <==> seen > 0,
            chars.remaining() == digits.skip(seen),
            all_digits(digits.take(seen)),
            value == decimal_value(digits.take(seen)),
        ensures
            seen == digits.len(),
        decreases digits.len() - seen,
    {
        match chars.next() {
            None => {
                break ;
            },
            Some(c) => {
                proof {
                    assert(digits.take(seen + 1).drop_last() =~= digits.take(seen));
                }
                match push_digit(value, c) {
                    None => {
                        proof {
                            lemma_prefix_value(digits, seen + 1);
                        }
                        return Err(ConfigError::InvalidFrequency);
                    },
                    Some(v) => {
                        value = v;
                        any = true;
                        proof {
                            seen = seen + 1;
                        }
                    },
                }
            },
        }
    }
    proof {
        assert(digits.take(seen) =~= digits);
    }
    if any {
        Ok(value)
    } else {
        Err(ConfigError::InvalidFrequency)
    }
}

} // verus!
