use converters::convert::{convert_read, converted_pace, covered_distance, distance_read};
use converters::{FormatError, ParseError};

fn in_floating_point(seconds: u32, unit: &str) -> String {
    let pace = (seconds / 60) as f64 + (seconds % 60) as f64 / 60.0;
    let (result, label) =
        if unit == "kms" { (pace * 1.60934, "per mile") } else { (pace / 1.60934, "per km") };
    let minutes = result.trunc();
    let secs = (result.fract() * 60.0).trunc();
    format!("{minutes}:{secs:02} {label}")
}

#[test]
fn whole_seconds_agree_with_floating_point() {
    for seconds in 0u32..3600 {
        for unit in ["kms", "miles"] {
            assert_eq!(converted_pace(seconds, unit), in_floating_point(seconds, unit));
        }
    }
}

#[test]
fn conversion_is_cut_and_not_rounded() {
    // 4:07 for a kilometre is 397.507 s for a mile
    assert_eq!(converted_pace(247, "kms"), "6:37 per mile");
    // 6:00 for a mile is 223.694 s for a kilometre
    assert_eq!(converted_pace(360, "miles"), "3:43 per km");
    // 1 s for a kilometre is 1.609 s for a mile
    assert_eq!(converted_pace(1, "kms"), "0:01 per mile");
    assert_eq!(converted_pace(1, "miles"), "0:00 per km");
}

fn seconds_shown(text: &str) -> u32 {
    let clock = text.split(' ').next().unwrap();
    let (m, s) = clock.split_once(':').unwrap();
    60 * m.parse::<u32>().unwrap() + s.parse::<u32>().unwrap()
}

#[test]
fn there_and_back_loses_one_second() {
    for seconds in 1u32..3600 {
        let there = seconds_shown(&converted_pace(seconds, "kms"));
        let back = seconds_shown(&converted_pace(there, "miles"));
        assert_eq!(back + 1, seconds);
    }
    assert_eq!(seconds_shown(&converted_pace(0, "kms")), 0);
}

#[test]
fn distances_agree_with_floating_point_off_the_halves() {
    let mut time: u32 = 0;
    while time < 360000 {
        for pace in [1u32, 7, 59, 60, 61, 247, 300, 333, 1801, 3599] {
            let scaled = 100 * time as u64;
            if 2 * (scaled % pace as u64) == pace as u64 {
                continue;
            }
            let t = (time / 3600) as f64 * 60.0 + (time / 60 % 60) as f64 + (time % 60) as f64 / 60.0;
            let p = (pace / 60) as f64 + (pace % 60) as f64 / 60.0;
            let distance = t / p;
            assert_eq!(covered_distance(time, pace, "km"), format!("{distance:.2} km"));
        }
        time += 37;
    }
}

#[test]
fn distance_by_nought_is_shown_as_floating_point_shows_it() {
    let inf = 60.0f64 / 0.0;
    let nan = 0.0f64 / 0.0;
    assert_eq!(covered_distance(3600, 0, "km"), format!("{inf:.2} km"));
    assert_eq!(covered_distance(0, 0, "km"), format!("{nan:.2} km"));
}

#[test]
fn exact_distances() {
    assert_eq!(covered_distance(3600, 300, "km"), "12.00 km");
    assert_eq!(covered_distance(1, 3, "mi"), "0.33 mi");
    assert_eq!(covered_distance(2, 3, "mi"), "0.67 mi");
    assert_eq!(covered_distance(1, 200, "mi"), "0.00 mi");
    assert_eq!(covered_distance(3, 200, "mi"), "0.02 mi");
    assert_eq!(covered_distance(5, 200, "mi"), "0.02 mi");
    assert_eq!(covered_distance(199, 200, "mi"), "1.00 mi");
    assert_eq!(covered_distance(359999, 1, ""), "359999.00 ");
    assert_eq!(covered_distance(u32::MAX, 1, "x"), "4294967295.00 x");
    assert_eq!(covered_distance(u32::MAX, u32::MAX, "x"), "1.00 x");
}

#[test]
fn what_was_not_read_is_told() {
    assert_eq!(convert_read(Err(ParseError), "kms"), Err(FormatError::Pace));
    assert_eq!(convert_read(Ok(300), "kms"), Ok("8:02 per mile".to_string()));
    assert_eq!(distance_read(Ok(3600), Err(ParseError), "km"), Err(FormatError::Pace));
    assert_eq!(distance_read(Err(ParseError), Err(ParseError), "km"), Err(FormatError::Pace));
    assert_eq!(distance_read(Err(ParseError), Ok(300), "km"), Err(FormatError::Time));
    assert_eq!(distance_read(Ok(3600), Ok(300), "km"), Ok("12.00 km".to_string()));
}
