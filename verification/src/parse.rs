//! Reading a pace and an elapsed time from text.

use vstd::prelude::*;
use vstd::string::*;
use crate::digits::{all_digits, digit_of, is_digit, lemma_number_short, number};
use crate::grammar::{is_minutes, is_pace, is_sixtieths, is_time, pace_seconds, time_seconds};
use crate::pattern::{regex_search, search};

verus! {

/// The pattern that a pace is searched with.
pub const PACE_PATTERN: &'static str = r"^[0-5]?\d$|^[0-5]?\d:[0-5]\d$";

/// The pattern that an elapsed time is searched with.
pub const TIME_PATTERN: &'static str = r"^\d{2}:[0-5]\d:[0-5]\d$";

/// A text was not of the shape asked for.
#[derive(Clone, Copy, Debug, PartialEq, Eq)]
pub struct ParseError;

/// The number written by the one or two characters of `text` from `from` up
/// to `to`, where all of them are digits.
fn read_digits(text: &str, from: usize, to: usize) -> (r: Option<u32>)
    requires
        from < to <= text@.len(),
        to - from <= 2,
    ensures
        r is Some <==> all_digits(text@.subrange(from as int, to as int)),
        r matches Some(n) ==> n == number(text@.subrange(from as int, to as int)) && n <= 99,
{
    let ghost run = text@.subrange(from as int, to as int);
    proof {
        lemma_number_short(run);
    }
    let first = match digit_of(text.get_char(from)) {
        Some(d) => d,
        None => {
            assert(!is_digit(run[0]));
            return None;
        },
    };
    if to - from == 1 {
        return Some(first);
    }
    match digit_of(text.get_char(from + 1)) {
        Some(d) => Some(10 * first + d),
        None => {
            assert(!is_digit(run[1]));
            None
        },
    }
}

/// The count below sixty written by the two characters of `text` at `from`.
fn read_sixtieths(text: &str, from: usize) -> (r: Option<u32>)
    requires
        from + 2 <= text@.len() <= usize::MAX,
    ensures
        r is Some <==> is_sixtieths(text@.subrange(from as int, from + 2)),
        r matches Some(n) ==> n == number(text@.subrange(from as int, from + 2)) && n < 60,
{
    proof {
        lemma_number_short(text@.subrange(from as int, from + 2));
    }
    match read_digits(text, from, from + 2) {
        Some(n) => if n < 60 {
            Some(n)
        } else {
            None
        },
        None => None,
    }
}

/// The minutes of a pace written by the first `to` characters of `text`.
fn read_minutes(text: &str, to: usize) -> (r: Option<u32>)
    requires
        to <= text@.len() <= usize::MAX,
    ensures
        r is Some <==> is_minutes(text@.take(to as int)),
        r matches Some(n) ==> n == number(text@.take(to as int)) && n < 60,
{
    assert(text@.take(to as int) == text@.subrange(0, to as int));
    proof {
        lemma_number_short(text@.take(to as int));
    }
    if to == 1 {
        read_digits(text, 0, 1)
    } else if to == 2 {
        read_sixtieths(text, 0)
    } else {
        None
    }
}

/// The seconds that `text` is worth where it is a pace.
pub fn pace_value(text: &str) -> (r: Option<u32>)
    ensures
        r is Some <==> is_pace(text@),
        r matches Some(v) ==> v == pace_seconds(text@) && v < 3600,
{
    let n = text.unicode_len();
    assert(text@.take(n as int) == text@);
    if n <= 2 {
        match read_minutes(text, n) {
            Some(m) => Some(60 * m),
            None => None,
        }
    } else if n <= 5 {
        let minutes = read_minutes(text, n - 3);
        let colon = text.get_char(n - 3) == ':';
        assert(text@.skip(n - 2) == text@.subrange(n - 2, n as int));
        let seconds = read_sixtieths(text, n - 2);
        match (minutes, colon, seconds) {
            (Some(m), true, Some(s)) => Some(60 * m + s),
            _ => None,
        }
    } else {
        None
    }
}

/// The seconds that `text` is worth where it is an elapsed time.
pub fn time_value(text: &str) -> (r: Option<u32>)
    ensures
        r is Some <==> is_time(text@),
        r matches Some(v) ==> v == time_seconds(text@) && v < 360000,
{
    if text.unicode_len() != 8 {
        return None;
    }
    proof {
        lemma_number_short(text@.subrange(0, 2));
    }
    let hours = read_digits(text, 0, 2);
    let minutes = read_sixtieths(text, 3);
    let seconds = read_sixtieths(text, 6);
    let colons = text.get_char(2) == ':' && text.get_char(5) == ':';
    match (hours, minutes, seconds, colons) {
        (Some(h), Some(m), Some(s), true) => Some(3600 * h + 60 * m + s),
        _ => None,
    }
}

/// What reading a pace gives, by what the search for the pattern found: the
/// seconds that the text is worth where the pattern was found in it and it is
/// a pace, and an error otherwise.
pub open spec fn pace_outcome(text: Seq<char>, found: Option<bool>) -> Result<u32, ParseError> {
    if found == Some(true) && is_pace(text) {
        Ok(pace_seconds(text) as u32)
    } else {
        Err(ParseError)
    }
}

/// What reading an elapsed time gives, by what the search for the pattern
/// found in it.
pub open spec fn time_outcome(text: Seq<char>, found: Option<bool>) -> Result<u32, ParseError> {
    if found == Some(true) && is_time(text) {
        Ok(time_seconds(text) as u32)
    } else {
        Err(ParseError)
    }
}

/// Reads a pace from a text in which the pattern of a pace was searched.
pub fn read_pace(text: &str, found: Option<bool>) -> (r: Result<u32, ParseError>)
    ensures
        r == pace_outcome(text@, found),
        r matches Ok(v) ==> is_pace(text@) && v == pace_seconds(text@) && v < 3600,
{
    match (found, pace_value(text)) {
        (Some(true), Some(v)) => Ok(v),
        _ => Err(ParseError),
    }
}

/// Reads an elapsed time from a text in which the pattern of a time was
/// searched.
pub fn read_time(text: &str, found: Option<bool>) -> (r: Result<u32, ParseError>)
    ensures
        r == time_outcome(text@, found),
        r matches Ok(v) ==> is_time(text@) && v == time_seconds(text@) && v < 360000,
{
    match (found, time_value(text)) {
        (Some(true), Some(v)) => Ok(v),
        _ => Err(ParseError),
    }
}

/// Reads a pace, `mm:ss` or minutes alone, as seconds for one unit of
/// distance.
pub fn parse_pace(pace: &str) -> (r: Result<u32, ParseError>)
    ensures
        r == pace_outcome(pace@, regex_search(PACE_PATTERN@, pace@)),
        r matches Ok(v) ==> is_pace(pace@) && v == pace_seconds(pace@) && v < 3600,
{
    read_pace(pace, search(PACE_PATTERN, pace))
}

/// Reads an elapsed time, `hh:mm:ss`, as seconds.
pub fn parse_time(time: &str) -> (r: Result<u32, ParseError>)
    ensures
        r == time_outcome(time@, regex_search(TIME_PATTERN@, time@)),
        r matches Ok(v) ==> is_time(time@) && v == time_seconds(time@) && v < 360000,
{
    read_time(time, search(TIME_PATTERN, time))
}

} // verus!
