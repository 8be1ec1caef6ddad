//! Decimal text of integers: writing (as `i32`'s `Display` does) and reading
//! (through std's `str::parse`).

use vstd::prelude::*;
use crate::text::push_char;

verus! {

/// The character of a decimal digit `0..10`.
pub open spec fn digit_char(d: int) -> char {
    (d + 48) as char
}

/// The decimal digits of a natural number, most significant first, without leading zeros
/// (`0` is the single digit `0`).
pub open spec fn nat_digits(n: nat) -> Seq<char>
    decreases n,
{
    if n < 10 {
        seq![digit_char(n as int)]
    } else {
        nat_digits(n / 10).push(digit_char((n % 10) as int))
    }
}

/// The decimal text of an integer: a `-` before the digits of a negative number.
pub open spec fn decimal(n: int) -> Seq<char> {
    if n < 0 {
        seq!['-'] + nat_digits((-n) as nat)
    } else {
        nat_digits(n as nat)
    }
}

/// `0` to `9`.
pub open spec fn is_digit_char(c: char) -> bool {
    '0' <= c <= '9'
}

pub open spec fn all_digits(s: Seq<char>) -> bool {
    forall|i: int| 0 <= i < s.len() ==> is_digit_char(#[trigger] s[i])
}

/// The number that a string of decimal digits spells.
pub open spec fn digits_value(s: Seq<char>) -> int
    decreases s.len(),
{
    if s.len() == 0 {
        0
    } else {
        digits_value(s.drop_last()) * 10 + (s.last() as int - 48)
    }
}

/// The integer that std's `str::parse` reads from `s`, before the range check of the target
/// type: an optional `+` (or, when `signed`, `-`) followed by at least one ASCII digit and
/// nothing else.
pub open spec fn parsed_integer(s: Seq<char>, signed: bool) -> Option<int> {
    if s.len() > 0 && (s[0] == '+' || (signed && s[0] == '-')) {
        let rest = s.drop_first();
        if rest.len() > 0 && all_digits(rest) {
            if s[0] == '-' {
                Some(-digits_value(rest))
            } else {
                Some(digits_value(rest))
            }
        } else {
            None
        }
    } else if s.len() > 0 && all_digits(s) {
        Some(digits_value(s))
    } else {
        None
    }
}

/// `str::parse::<i32>` of std, with its error dropped.  As std documents for
/// `i32::from_str_radix`: an optional sign and then only digits; anything else, an empty
/// text, or a value outside `i32` is an error.
#[verifier::external_body]
pub(crate) fn parse_i32(s: &str) -> (r: Option<i32>)
    ensures
        match r {
            Some(v) => parsed_integer(s@, true) == Some(v as int),
            None => !(parsed_integer(s@, true) matches Some(v) && i32::MIN <= v <= i32::MAX),
        },
{
    s.parse::<i32>().ok()
}

/// `str::parse::<u32>` of std, with its error dropped.  As std documents for
/// `u32::from_str_radix`: an optional `+` and then only digits; anything else, an empty
/// text, or a value above `u32::MAX` is an error.
#[verifier::external_body]
pub(crate) fn parse_u32(s: &str) -> (r: Option<u32>)
    ensures
        match r {
            Some(v) => parsed_integer(s@, false) == Some(v as int),
            None => !(parsed_integer(s@, false) matches Some(v) && 0 <= v <= u32::MAX),
        },
{
    s.parse::<u32>().ok()
}

fn push_digits(s: &mut String, m: u32)
    ensures
        final(s)@ == old(s)@ + nat_digits(m as nat),
    decreases m,
{
    if m >= 10 {
        push_digits(s, m / 10);
    }
    push_char(s, ((m % 10) as u8 + 48) as char);
    proof {
        if m >= 10 {
            assert(nat_digits(m as nat) == nat_digits((m / 10) as nat).push(digit_char((m % 10) as int)));
        }
    }
    assert(s@ =~= old(s)@ + nat_digits(m as nat)) by {
        if m < 10 {
            assert(nat_digits(m as nat) =~= seq![digit_char(m as int)]);
        }
    }
}

/// The decimal text of an `i32`, as `i32::to_string` writes it.
pub fn i32_to_decimal(n: i32) -> (r: String)
    ensures
        r@ == decimal(n as int),
{
    let mut r = String::new();
    let magnitude: u32;
    if n < 0 {
        push_char(&mut r, '-');
        magnitude = (0i64 - n as i64) as u32;
    } else {
        magnitude = n as u32;
    }
    push_digits(&mut r, magnitude);
    assert(r@ =~= decimal(n as int));
    r
}

} // verus!
