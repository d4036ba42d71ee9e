//! Decimal digits: what a run of them is worth, and how a number is written.

use vstd::prelude::*;

verus! {

/// One of the ten decimal digits `0` to `9`.
pub open spec fn is_digit(c: char) -> bool {
    '0' <= c && c <= '9'
}

/// One of `0` to `5`: the digits that may lead a count of sixty.
pub open spec fn is_low_digit(c: char) -> bool {
    '0' <= c && c <= '5'
}

/// What a digit is worth.
pub open spec fn digit_value(c: char) -> nat
    recommends
        is_digit(c),
{
    (c as nat - '0' as nat) as nat
}

/// The character that writes a value below ten.
pub open spec fn digit_char(d: nat) -> char
    recommends
        d < 10,
{
    ('0' as u8 + d) as u8 as char
}

/// Every character of `s` is a decimal digit.
pub open spec fn all_digits(s: Seq<char>) -> bool {
    forall|i: int| 0 <= i < s.len() ==> is_digit(#[trigger] s[i])
}

/// The number that a run of digits writes, most significant digit first.
pub open spec fn number(s: Seq<char>) -> nat
    decreases s.len(),
{
    if s.len() == 0 {
        0
    } else {
        10 * number(s.drop_last()) + digit_value(s.last())
    }
}

/// A number written in decimal, with no leading zero but for zero itself.
pub open spec fn decimal(n: nat) -> Seq<char>
    decreases n,
{
    if n < 10 {
        seq![digit_char(n)]
    } else {
        decimal(n / 10).push(digit_char(n % 10))
    }
}

/// A number below one hundred written with exactly two digits.
pub open spec fn two_digits(n: nat) -> Seq<char>
    recommends
        n < 100,
{
    seq![digit_char(n / 10), digit_char(n % 10)]
}

/// A run of one digit is worth that digit; a run of two, ten times the first
/// and the second.
pub proof fn lemma_number_short(s: Seq<char>)
    ensures
        s.len() == 1 ==> number(s) == digit_value(s[0]),
        s.len() == 2 ==> number(s) == 10 * digit_value(s[0]) + digit_value(s[1]),
{
    reveal_with_fuel(number, 3);
    if s.len() == 2 {
        assert(s.drop_last().last() == s[0]);
    }
}

/// The value of `c` where it is a decimal digit.
pub fn digit_of(c: char) -> (r: Option<u32>)
    ensures
        r is Some <==> is_digit(c),
        r matches Some(d) ==> d == digit_value(c) && d <= 9,
{
    if '0' <= c && c <= '9' {
        Some(c as u32 - '0' as u32)
    } else {
        None
    }
}

/// The digit that writes `d`.
pub(crate) fn char_of_digit(d: u8) -> (c: char)
    requires
        d < 10,
    ensures
        c == digit_char(d as nat),
        is_digit(c),
        digit_value(c) == d,
{
    (48u8 + d) as char
}

} // verus!
