use waitexec::time::{format_hm, format_hms, parse_time_spec, TimeSpec};
use waitexec::TimeOfDay;

#[test]
fn parse_absolute_hm() {
    let r = parse_time_spec("10:30");
    assert_eq!(r, Some(TimeSpec::Absolute(TimeOfDay { hour: 10, minute: 30, second: 0 })));
}

#[test]
fn parse_absolute_hms() {
    let r = parse_time_spec("10:30:45");
    assert_eq!(r, Some(TimeSpec::Absolute(TimeOfDay { hour: 10, minute: 30, second: 45 })));
}

#[test]
fn parse_relative_seconds() {
    let r = parse_time_spec("+00:00:05");
    assert_eq!(r, Some(TimeSpec::Relative(TimeOfDay { hour: 0, minute: 0, second: 5 })));
}

#[test]
fn parse_relative_hm() {
    let r = parse_time_spec("+01:30");
    assert_eq!(r, Some(TimeSpec::Relative(TimeOfDay { hour: 1, minute: 30, second: 0 })));
}

#[test]
fn parse_minute_out_of_range() {
    assert_eq!(parse_time_spec("10:99"), None);
}

#[test]
fn parse_hour_out_of_range() {
    assert_eq!(parse_time_spec("24:00"), None);
    assert_eq!(parse_time_spec("23:59"), Some(TimeSpec::Absolute(TimeOfDay {
        hour: 23,
        minute: 59,
        second: 0,
    })));
}

#[test]
fn parse_second_out_of_range() {
    assert_eq!(parse_time_spec("10:30:60"), None);
}

#[test]
fn parse_wrong_digit_count() {
    assert_eq!(parse_time_spec("9:30"), None);
    assert_eq!(parse_time_spec("09:3"), None);
}

#[test]
fn parse_wrong_separator() {
    assert_eq!(parse_time_spec("10-30"), None);
    assert_eq!(parse_time_spec("10:30-45"), None);
}

#[test]
fn parse_six_chars_is_not_hm() {
    // Longer than five characters selects the HH:MM:SS pattern; there is
    // no fallback to HH:MM.
    assert_eq!(parse_time_spec("10:300"), None);
    assert_eq!(parse_time_spec("10:30:456"), None);
}

#[test]
fn parse_empty_and_bare_marker() {
    assert_eq!(parse_time_spec(""), None);
    assert_eq!(parse_time_spec("+"), None);
}

#[test]
fn parse_non_numeric() {
    assert_eq!(parse_time_spec("ab:cd"), None);
}

#[test]
fn round_trip_hm() {
    let t = match parse_time_spec("10:30") {
        Some(TimeSpec::Absolute(t)) => t,
        _ => panic!("expected an absolute time"),
    };
    assert_eq!(format_hm(&t), "10:30");
}

#[test]
fn round_trip_hm_edges() {
    for s in ["00:00", "09:05", "23:59"] {
        let t = match parse_time_spec(s) {
            Some(TimeSpec::Absolute(t)) => t,
            _ => panic!("expected an absolute time"),
        };
        assert_eq!(format_hm(&t), s);
    }
}

#[test]
fn round_trip_hms() {
    let t = match parse_time_spec("23:59:58") {
        Some(TimeSpec::Absolute(t)) => t,
        _ => panic!("expected an absolute time"),
    };
    assert_eq!(format_hms(&t), "23:59:58");
}

#[test]
fn hm_means_hms_with_zero_seconds() {
    assert_eq!(parse_time_spec("10:30"), parse_time_spec("10:30:00"));
    assert_eq!(parse_time_spec("+10:30"), parse_time_spec("+10:30:00"));
}
