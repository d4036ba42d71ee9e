use converters::parse::{pace_value, read_pace, read_time, time_value, PACE_PATTERN, TIME_PATTERN};
use converters::{parse_pace, parse_time, ParseError};

#[test]
fn every_pace_is_worth_its_minutes_and_seconds() {
    for m in 0u32..60 {
        assert_eq!(pace_value(&format!("{}", m)), Some(60 * m));
        assert_eq!(pace_value(&format!("{:02}", m)), Some(60 * m));
        for s in 0u32..60 {
            assert_eq!(pace_value(&format!("{}:{:02}", m, s)), Some(60 * m + s));
            assert_eq!(pace_value(&format!("{:02}:{:02}", m, s)), Some(60 * m + s));
        }
    }
}

#[test]
fn parsed_paces() {
    assert_eq!(parse_pace("5:00"), Ok(300));
    assert_eq!(parse_pace("05:30"), Ok(330));
    assert_eq!(parse_pace("7"), Ok(420));
    assert_eq!(parse_pace("59:59"), Ok(3599));
    assert_eq!(parse_pace("0:00"), Ok(0));
    assert_eq!(parse_pace("4:07"), Ok(247));
}

#[test]
fn texts_that_are_no_pace() {
    for text in [
        "", "60:00", "5:60", "abc", "5:5", ":", "5:", ":30", "5:300", "005:30", "5:30:00",
        " 5:30", "5:30 ", "5:30\n", "-5:30", "+5", "5.30", "5;30", "5:3a", "a:30", "600", "60",
        "5::30", "\u{663}", "5:\u{663}0", "\u{ff15}:00",
    ] {
        assert_eq!(parse_pace(text), Err(ParseError), "{:?}", text);
        assert_eq!(pace_value(text), None, "{:?}", text);
    }
}

#[test]
fn every_time_is_worth_its_parts() {
    for h in [0u32, 1, 9, 10, 23, 24, 59, 60, 98, 99] {
        for m in 0u32..60 {
            for s in 0u32..60 {
                let text = format!("{:02}:{:02}:{:02}", h, m, s);
                assert_eq!(time_value(&text), Some(3600 * h + 60 * m + s));
            }
        }
    }
}

#[test]
fn parsed_times() {
    assert_eq!(parse_time("01:00:00"), Ok(3600));
    assert_eq!(parse_time("00:00:00"), Ok(0));
    assert_eq!(parse_time("99:59:59"), Ok(359999));
    assert_eq!(parse_time("03:25:07"), Ok(12307));
}

#[test]
fn texts_that_are_no_time() {
    for text in [
        "", "1:00:00", "001:00:00", "01:60:00", "01:00:60", "01:00", "01:00:0", "01:0:00",
        "01-00-00", "01:00:00 ", " 01:00:00", "01:00:00\n", "ab:cd:ef", "01:00:00:00", "0100:00",
        "01:00:000", "\u{661}\u{662}:00:00", "5:00", "5",
    ] {
        assert_eq!(parse_time(text), Err(ParseError), "{:?}", text);
        assert_eq!(time_value(text), None, "{:?}", text);
    }
}

#[test]
fn nothing_is_read_where_the_pattern_was_not_found() {
    assert_eq!(read_pace("5:00", Some(true)), Ok(300));
    assert_eq!(read_pace("5:00", Some(false)), Err(ParseError));
    assert_eq!(read_pace("5:00", None), Err(ParseError));
    assert_eq!(read_pace("5:60", Some(true)), Err(ParseError));
    assert_eq!(read_time("01:00:00", Some(true)), Ok(3600));
    assert_eq!(read_time("01:00:00", Some(false)), Err(ParseError));
    assert_eq!(read_time("01:00:00", None), Err(ParseError));
    assert_eq!(read_time("1:00:00", Some(true)), Err(ParseError));
}

#[test]
fn the_patterns_find_what_has_the_shape() {
    let pace = regex::Regex::new(PACE_PATTERN).unwrap();
    let time = regex::Regex::new(TIME_PATTERN).unwrap();
    for m in 0u32..60 {
        for s in 0u32..60 {
            assert!(pace.is_match(&format!("{}:{:02}", m, s)));
            assert!(time.is_match(&format!("{:02}:{:02}:{:02}", (m + s) % 100, m, s)));
        }
    }
    assert!(!pace.is_match("60:00"));
    assert!(!time.is_match("1:00:00"));
}
