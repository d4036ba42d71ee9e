//! What holds of reading, writing and converting, for every input.

use vstd::prelude::*;
use crate::convert::{clock, hundredths, per_km, per_mile};
use crate::digits::{
    all_digits, decimal, digit_char, digit_value, is_digit, lemma_number_short, number, two_digits,
};
use crate::grammar::{is_minutes, is_pace, is_sixtieths, is_time, pace_seconds, time_seconds};
use crate::parse::{pace_outcome, time_outcome, ParseError};

verus! {

/// A number written in decimal is a run of digits that is worth the number.
pub proof fn lemma_decimal_is_read_back(n: nat)
    ensures
        all_digits(decimal(n)),
        number(decimal(n)) == n,
        n < 10 ==> decimal(n).len() == 1,
        10 <= n < 100 ==> decimal(n).len() == 2,
    decreases n,
{
    if n < 10 {
        lemma_number_short(decimal(n));
    } else {
        lemma_decimal_is_read_back(n / 10);
        assert(decimal(n).drop_last() == decimal(n / 10));
    }
}

/// A number below one hundred written in two digits is worth the number.
pub proof fn lemma_two_digits_are_read_back(n: nat)
    requires
        n < 100,
    ensures
        all_digits(two_digits(n)),
        number(two_digits(n)) == n,
        n < 10 ==> two_digits(n) == seq!['0'] + decimal(n),
        10 <= n ==> two_digits(n) == decimal(n),
{
    lemma_number_short(two_digits(n));
    if n >= 10 {
        assert(decimal(n / 10) == seq![digit_char(n / 10)]);
        assert(decimal(n) == two_digits(n));
    } else {
        assert(two_digits(n) == seq!['0'] + decimal(n));
    }
}

/// A count below sixty in two digits has the shape of one and is worth the
/// count.
pub proof fn lemma_sixtieths_are_read_back(n: nat)
    requires
        n < 60,
    ensures
        is_sixtieths(two_digits(n)),
        number(two_digits(n)) == n,
{
    lemma_two_digits_are_read_back(n);
}

/// Minutes below sixty, in one digit where they fit or in two, have the
/// shape of minutes and are worth their count.
pub proof fn lemma_minutes_are_read_back(m: nat)
    requires
        m < 60,
    ensures
        is_minutes(decimal(m)),
        is_minutes(two_digits(m)),
        number(decimal(m)) == m,
        number(two_digits(m)) == m,
{
    lemma_decimal_is_read_back(m);
    lemma_sixtieths_are_read_back(m);
    lemma_two_digits_are_read_back(m);
}

/// Minutes, a colon and seconds make a pace that is worth sixty times the
/// minutes, and the seconds.
pub proof fn lemma_pace_of_parts(minutes: Seq<char>, seconds: Seq<char>)
    requires
        is_minutes(minutes),
        is_sixtieths(seconds),
    ensures
        is_pace(minutes + seq![':'] + seconds),
        pace_seconds(minutes + seq![':'] + seconds) == 60 * number(minutes) + number(seconds),
{
    let text = minutes + seq![':'] + seconds;
    assert(text.take(text.len() - 3) == minutes);
    assert(text.skip(text.len() - 2) == seconds);
}

/// Minutes and seconds below sixty, written `m:ss` or `mm:ss`, are a pace
/// that is worth sixty times the minutes, and the seconds; wherever the
/// pattern is found in that text, this is what is read.
pub proof fn lemma_pace_of_minutes_and_seconds(m: nat, s: nat)
    requires
        m < 60,
        s < 60,
    ensures
        is_pace(decimal(m) + seq![':'] + two_digits(s)),
        is_pace(two_digits(m) + seq![':'] + two_digits(s)),
        pace_seconds(decimal(m) + seq![':'] + two_digits(s)) == 60 * m + s,
        pace_seconds(two_digits(m) + seq![':'] + two_digits(s)) == 60 * m + s,
        pace_outcome(decimal(m) + seq![':'] + two_digits(s), Some(true)) == Ok::<u32, ParseError>(
            (60 * m + s) as u32,
        ),
        pace_outcome(two_digits(m) + seq![':'] + two_digits(s), Some(true)) == Ok::<
            u32,
            ParseError,
        >((60 * m + s) as u32),
        decimal(m) + seq![':'] + two_digits(s) == clock(60 * m + s),
{
    lemma_minutes_are_read_back(m);
    lemma_sixtieths_are_read_back(s);
    lemma_pace_of_parts(decimal(m), two_digits(s));
    lemma_pace_of_parts(two_digits(m), two_digits(s));
}

/// Minutes below sixty alone, in one digit or two, are a pace of that many
/// minutes.
pub proof fn lemma_pace_of_minutes(m: nat)
    requires
        m < 60,
    ensures
        is_pace(decimal(m)),
        is_pace(two_digits(m)),
        pace_seconds(decimal(m)) == 60 * m,
        pace_seconds(two_digits(m)) == 60 * m,
        pace_outcome(decimal(m), Some(true)) == Ok::<u32, ParseError>((60 * m) as u32),
        pace_outcome(two_digits(m), Some(true)) == Ok::<u32, ParseError>((60 * m) as u32),
{
    lemma_minutes_are_read_back(m);
}

/// A text that is no pace is never read as one, whatever the search found;
/// and no text is where the pattern was not found.
pub proof fn lemma_no_pace_is_refused(text: Seq<char>, found: Option<bool>)
    requires
        !is_pace(text) || found != Some(true),
    ensures
        pace_outcome(text, found) == Err::<u32, ParseError>(ParseError),
{
}

/// Hours below one hundred and minutes and seconds below sixty, written
/// `hh:mm:ss`, are an elapsed time that is worth 3600 times the hours, sixty
/// times the minutes, and the seconds; wherever the pattern is found in that
/// text, this is what is read.
pub proof fn lemma_time_of_hours_minutes_and_seconds(h: nat, m: nat, s: nat)
    requires
        h < 100,
        m < 60,
        s < 60,
    ensures
        is_time(two_digits(h) + seq![':'] + two_digits(m) + seq![':'] + two_digits(s)),
        time_seconds(two_digits(h) + seq![':'] + two_digits(m) + seq![':'] + two_digits(s))
            == 3600 * h + 60 * m + s,
        time_outcome(
            two_digits(h) + seq![':'] + two_digits(m) + seq![':'] + two_digits(s),
            Some(true),
        ) == Ok::<u32, ParseError>((3600 * h + 60 * m + s) as u32),
{
    lemma_two_digits_are_read_back(h);
    lemma_two_digits_are_read_back(m);
    lemma_two_digits_are_read_back(s);
    let text = two_digits(h) + seq![':'] + two_digits(m) + seq![':'] + two_digits(s);
    assert(text.subrange(0, 2) == two_digits(h));
    assert(text.subrange(3, 5) == two_digits(m));
    assert(text.subrange(6, 8) == two_digits(s));
}

/// A text that is no elapsed time is never read as one, whatever the search
/// found; and no text is where the pattern was not found.
pub proof fn lemma_no_time_is_refused(text: Seq<char>, found: Option<bool>)
    requires
        !is_time(text) || found != Some(true),
    ensures
        time_outcome(text, found) == Err::<u32, ParseError>(ParseError),
{
}

/// No pace but nought is a whole number of seconds both for a mile and for
/// a kilometre: converting always cuts something off.
pub proof fn lemma_conversion_is_never_whole(seconds: nat)
    requires
        0 < seconds < 3600,
    ensures
        seconds * 160934 % 100000 != 0,
        seconds * 100000 % 160934 != 0,
{
    let s = seconds as u32;
    assert(0 < s < 3600 ==> (s * 160934) % 100000 != 0 && (s * 100000) % 160934 != 0)
        by (bit_vector);
    assert(s * 160934 == seconds * 160934);
    assert(s * 100000 == seconds * 100000);
}

/// A pace converted from a kilometre to a mile and back comes out one second
/// short, never the same, because each conversion cuts to whole seconds; a
/// pace of nought stays nought.
pub proof fn lemma_there_and_back(seconds: nat)
    requires
        seconds < 3600,
    ensures
        seconds > 0 ==> per_km(per_mile(seconds)) == seconds - 1,
        seconds == 0 ==> per_km(per_mile(seconds)) == 0,
{
    if seconds > 0 {
        lemma_conversion_is_never_whole(seconds);
        let there = per_mile(seconds);
        assert(there * 100000 < seconds * 160934);
        assert(there * 100000 > seconds * 160934 - 100000);
    }
}

/// A pace converted from a mile to a kilometre and back comes out one or
/// two seconds short; a pace of nought stays nought.
pub proof fn lemma_back_and_there(seconds: nat)
    requires
        seconds < 3600,
    ensures
        seconds > 0 ==> seconds - 2 <= per_mile(per_km(seconds)) <= seconds - 1,
        seconds == 0 ==> per_mile(per_km(seconds)) == 0,
{
    if seconds > 0 {
        lemma_conversion_is_never_whole(seconds);
        let back = per_km(seconds);
        assert(back * 160934 < seconds * 100000);
        assert(back * 160934 > seconds * 100000 - 160934);
    }
}

/// A converted pace under an hour is shown as a text that is itself a pace,
/// worth what was shown.
pub proof fn lemma_clock_is_a_pace(seconds: nat)
    requires
        seconds < 3600,
    ensures
        is_pace(clock(seconds)),
        pace_seconds(clock(seconds)) == seconds,
{
    lemma_pace_of_minutes_and_seconds(seconds / 60, seconds % 60);
}

/// The hundredths shown for a quotient are the nearest to it: they are off
/// by half a hundredth at most.
pub proof fn lemma_hundredths_are_nearest(time: nat, pace: nat)
    requires
        pace > 0,
    ensures
        -(pace as int) <= 2 * (100 * time - hundredths(time, pace) * pace) <= pace,
{
    let whole = 100 * time / pace;
    let rest = 100 * time % pace;
    assert(100 * time == whole * pace + rest && 0 <= rest < pace) by (nonlinear_arith)
        requires
            pace > 0,
            whole == 100 * time / pace,
            rest == 100 * time % pace,
    ;
    assert((whole + 1) * pace == whole * pace + pace) by (nonlinear_arith);
}

} // verus!
