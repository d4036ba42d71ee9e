//! The shapes that a pace and an elapsed time are written in, and what a
//! text of each shape is worth in seconds.

use vstd::prelude::*;
use crate::digits::{is_digit, is_low_digit, number};

verus! {

/// A count below sixty in two digits: one of `0` to `5`, then any digit.
pub open spec fn is_sixtieths(s: Seq<char>) -> bool {
    s.len() == 2 && is_low_digit(s[0]) && is_digit(s[1])
}

/// The minutes of a pace: a count below sixty in one digit or in two.
pub open spec fn is_minutes(s: Seq<char>) -> bool {
    (s.len() == 1 && is_digit(s[0])) || is_sixtieths(s)
}

/// The hours of an elapsed time: exactly two digits.
pub open spec fn is_hours(s: Seq<char>) -> bool {
    s.len() == 2 && is_digit(s[0]) && is_digit(s[1])
}

/// A pace: minutes alone, or minutes, a colon and two digits of seconds.
pub open spec fn is_pace(s: Seq<char>) -> bool {
    is_minutes(s) || (s.len() >= 3 && is_minutes(s.take(s.len() - 3)) && s[s.len() - 3] == ':'
        && is_sixtieths(s.skip(s.len() - 2)))
}

/// What a pace is worth, in seconds for one unit of distance.
pub open spec fn pace_seconds(s: Seq<char>) -> nat
    recommends
        is_pace(s),
{
    if is_minutes(s) {
        60 * number(s)
    } else {
        60 * number(s.take(s.len() - 3)) + number(s.skip(s.len() - 2))
    }
}

/// An elapsed time: two digits of hours, two of minutes and two of seconds,
/// with a colon between them.
pub open spec fn is_time(s: Seq<char>) -> bool {
    s.len() == 8 && is_hours(s.subrange(0, 2)) && s[2] == ':' && is_sixtieths(s.subrange(3, 5))
        && s[5] == ':' && is_sixtieths(s.subrange(6, 8))
}

/// What an elapsed time is worth, in seconds.
pub open spec fn time_seconds(s: Seq<char>) -> nat
    recommends
        is_time(s),
{
    3600 * number(s.subrange(0, 2)) + 60 * number(s.subrange(3, 5)) + number(s.subrange(6, 8))
}

} // verus!
