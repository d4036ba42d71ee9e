//! Converting a pace between miles and kilometres, and the distance covered
//! in a time at a pace.

use vstd::prelude::*;
use vstd::string::*;
use crate::digits::{decimal, two_digits};
use crate::grammar::{is_pace, is_time, pace_seconds, time_seconds};
use crate::parse::{
    pace_outcome, parse_pace, parse_time, time_outcome, ParseError, PACE_PATTERN, TIME_PATTERN,
};
use crate::pattern::regex_search;
use crate::text::{push_decimal, push_two_digits, same_text};

verus! {

/// A mile is 1.60934 kilometres: this many hundred-thousandths of one.
pub const KM_PER_MILE_NUMERATOR: u64 = 160934;

/// The hundred-thousandths that make a whole.
pub const KM_PER_MILE_DENOMINATOR: u64 = 100000;

/// An input was not written as asked.
#[derive(Clone, Copy, Debug, PartialEq, Eq)]
pub enum FormatError {
    /// The pace is not `mm:ss`.
    Pace,
    /// The elapsed time is not `hh:mm:ss`.
    Time,
}

impl FormatError {
    /// The message of each error.
    pub open spec fn spec_message(self) -> Seq<char> {
        match self {
            FormatError::Pace => "Invalid format, expect mm:ss"@,
            FormatError::Time => "Invalid format, expect hh:mm:ss"@,
        }
    }

    /// The message to show for this error.
    pub fn message(&self) -> (text: &'static str)
        ensures
            text@ == self.spec_message(),
    {
        match self {
            FormatError::Pace => "Invalid format, expect mm:ss",
            FormatError::Time => "Invalid format, expect hh:mm:ss",
        }
    }
}

/// Whether the unit says that the pace is for a kilometre.
pub open spec fn from_kms(unit: Seq<char>) -> bool {
    unit == "kms"@
}

/// The whole seconds for a mile of a pace for a kilometre.
pub open spec fn per_mile(seconds: nat) -> nat {
    seconds * KM_PER_MILE_NUMERATOR as nat / KM_PER_MILE_DENOMINATOR as nat
}

/// The whole seconds for a kilometre of a pace for a mile.
pub open spec fn per_km(seconds: nat) -> nat {
    seconds * KM_PER_MILE_DENOMINATOR as nat / KM_PER_MILE_NUMERATOR as nat
}

/// Seconds written as minutes, a colon and two digits of seconds.
pub open spec fn clock(seconds: nat) -> Seq<char> {
    decimal(seconds / 60) + seq![':'] + two_digits(seconds % 60)
}

/// The converted pace as it is shown: for a mile where the unit is `kms`, for
/// a kilometre with any other unit.
pub open spec fn pace_text(seconds: nat, unit: Seq<char>) -> Seq<char> {
    if from_kms(unit) {
        clock(per_mile(seconds)) + seq![' '] + "per mile"@
    } else {
        clock(per_km(seconds)) + seq![' '] + "per km"@
    }
}

/// The hundredths in `time / pace`, to the nearest, and to the even one of
/// two that are as near.
pub open spec fn hundredths(time: nat, pace: nat) -> nat
    recommends
        pace > 0,
{
    let whole = 100 * time / pace;
    let rest = 100 * time % pace;
    if 2 * rest > pace || (2 * rest == pace && whole % 2 == 1) {
        whole + 1
    } else {
        whole
    }
}

/// The quotient `time / pace` as it is shown, with two decimals: `NaN` for
/// nought by nought, `inf` for anything else by nought.
pub open spec fn quotient_text(time: nat, pace: nat) -> Seq<char> {
    if pace == 0 {
        if time == 0 {
            "NaN"@
        } else {
            "inf"@
        }
    } else {
        decimal(hundredths(time, pace) / 100) + seq!['.'] + two_digits(hundredths(time, pace) % 100)
    }
}

/// The distance as it is shown: the quotient, a space and the unit.
pub open spec fn distance_text(time: nat, pace: nat, unit: Seq<char>) -> Seq<char> {
    quotient_text(time, pace) + seq![' '] + unit
}

/// The text of a pace of `seconds` for one unit, converted to the other.
pub fn converted_pace(seconds: u32, unit: &str) -> (out: String)
    ensures
        out@ == pace_text(seconds as nat, unit@),
{
    let to_mile = same_text(unit, "kms");
    let total: u64 = if to_mile {
        seconds as u64 * KM_PER_MILE_NUMERATOR / KM_PER_MILE_DENOMINATOR
    } else {
        seconds as u64 * KM_PER_MILE_DENOMINATOR / KM_PER_MILE_NUMERATOR
    };
    let mut out = String::new();
    push_decimal(&mut out, total / 60);
    out.push(':');
    push_two_digits(&mut out, total % 60);
    out.push(' ');
    let ghost head = out@;
    assert(head =~= clock(total as nat) + seq![' ']);
    out.append(if to_mile { "per mile" } else { "per km" });
    out
}

/// The text of the distance covered in `time` seconds at `pace` seconds for
/// one unit.
pub fn covered_distance(time: u32, pace: u32, unit: &str) -> (out: String)
    ensures
        out@ == distance_text(time as nat, pace as nat, unit@),
{
    let mut out = String::new();
    if pace == 0 {
        out.append(if time == 0 { "NaN" } else { "inf" });
    } else {
        let scaled: u64 = 100 * (time as u64);
        let whole: u64 = scaled / (pace as u64);
        let rest: u64 = scaled % (pace as u64);
        let up = 2 * rest > pace as u64 || (2 * rest == pace as u64 && whole % 2 == 1);
        let h: u64 = if up { whole + 1 } else { whole };
        assert(h == hundredths(time as nat, pace as nat));
        push_decimal(&mut out, h / 100);
        out.push('.');
        push_two_digits(&mut out, h % 100);
    }
    assert(out@ =~= quotient_text(time as nat, pace as nat));
    out.push(' ');
    out.append(unit);
    assert(out@ =~= distance_text(time as nat, pace as nat, unit@));
    out
}

/// A result with its text taken as the characters it holds.
pub open spec fn shown(r: Result<String, FormatError>) -> Result<Seq<char>, FormatError> {
    match r {
        Ok(text) => Ok(text@),
        Err(e) => Err(e),
    }
}

/// What converting gives for a pace as it was read.
pub open spec fn conversion(pace: Result<u32, ParseError>, unit: Seq<char>) -> Result<
    Seq<char>,
    FormatError,
> {
    match pace {
        Ok(seconds) => Ok(pace_text(seconds as nat, unit)),
        Err(_) => Err(FormatError::Pace),
    }
}

/// What the distance is for a time and a pace as they were read. A pace that
/// was not read is told before a time that was not.
pub open spec fn distance(
    time: Result<u32, ParseError>,
    pace: Result<u32, ParseError>,
    unit: Seq<char>,
) -> Result<Seq<char>, FormatError> {
    match (pace, time) {
        (Err(_), _) => Err(FormatError::Pace),
        (Ok(_), Err(_)) => Err(FormatError::Time),
        (Ok(p), Ok(t)) => Ok(distance_text(t as nat, p as nat, unit)),
    }
}

/// Converts a pace as it was read, or tells that it was not.
pub fn convert_read(pace: Result<u32, ParseError>, unit: &str) -> (r: Result<String, FormatError>)
    ensures
        shown(r) == conversion(pace, unit@),
{
    match pace {
        Ok(seconds) => Ok(converted_pace(seconds, unit)),
        Err(_) => Err(FormatError::Pace),
    }
}

/// The distance for a time and a pace as they were read, or which of them
/// was not.
pub fn distance_read(
    time: Result<u32, ParseError>,
    pace: Result<u32, ParseError>,
    unit: &str,
) -> (r: Result<String, FormatError>)
    ensures
        shown(r) == distance(time, pace, unit@),
{
    match (pace, time) {
        (Err(_), _) => Err(FormatError::Pace),
        (Ok(_), Err(_)) => Err(FormatError::Time),
        (Ok(p), Ok(t)) => Ok(covered_distance(t, p, unit)),
    }
}

/// Converts a pace written `mm:ss`, or in minutes alone: from a kilometre to
/// a mile where `unit` is `kms`, from a mile to a kilometre with any other
/// unit. The result is cut to whole seconds.
pub fn convert_pace(pace: &str, unit: &str) -> (r: Result<String, FormatError>)
    ensures
        shown(r) == conversion(
            pace_outcome(pace@, regex_search(PACE_PATTERN@, pace@)),
            unit@,
        ),
        r matches Ok(text) ==> is_pace(pace@) && text@ == pace_text(pace_seconds(pace@), unit@),
        r matches Err(e) ==> e == FormatError::Pace,
{
    convert_read(parse_pace(pace), unit)
}

/// The distance covered in a time written `hh:mm:ss` at a pace written
/// `mm:ss`, with two decimals and followed by `unit` as it is.
pub fn calculate_distance(time: &str, pace: &str, unit: &str) -> (r: Result<String, FormatError>)
    ensures
        shown(r) == distance(
            time_outcome(time@, regex_search(TIME_PATTERN@, time@)),
            pace_outcome(pace@, regex_search(PACE_PATTERN@, pace@)),
            unit@,
        ),
        r matches Ok(text) ==> is_pace(pace@) && is_time(time@) && text@ == distance_text(
            time_seconds(time@),
            pace_seconds(pace@),
            unit@,
        ),
        !is_pace(pace@) ==> r matches Err(FormatError::Pace),
{
    let pace_read = parse_pace(pace);
    if pace_read.is_err() {
        return Err(FormatError::Pace);
    }
    distance_read(parse_time(time), pace_read, unit)
}

} // verus!
