use transitfeed::Error;
use transitfeed::TimeOffset;
use transitfeed::gtfs::field_date;
use transitfeed::gtfs::field_duration;
use transitfeed::gtfs::field_opt_date;
use transitfeed::gtfs::field_u64;
use transitfeed::gtfs::parse_float;
use transitfeed::gtfs::parse_int;
use transitfeed::gtfs::parse_timeoffset;
use transitfeed::parse::is_decimal;
use transitfeed::parse::parse_i64;
use transitfeed::parse::parse_time;
use transitfeed::parse::parse_u64;
use transitfeed::parse::trim_str;

#[test]
fn parse_timeoffset_test() {
    assert_eq!(
        parse_timeoffset(0, "bogus", "01:01:01").unwrap(),
        TimeOffset::from_hms(1, 1, 1)
    );
    assert_eq!(
        parse_timeoffset(0, "bogus", "1:01:01").unwrap(),
        TimeOffset::from_hms(1, 1, 1)
    );
    assert_eq!(
        parse_timeoffset(0, "bogus", "01:01:01  ").unwrap(),
        TimeOffset::from_hms(1, 1, 1)
    );
    assert_eq!(
        parse_timeoffset(0, "bogus", " 01:01:01  ").unwrap(),
        TimeOffset::from_hms(1, 1, 1)
    );
    assert!(parse_timeoffset(0, "bogus", ":01:01").is_err());
    assert!(parse_timeoffset(0, "bogus", "ab:01:01").is_err());
    assert!(parse_timeoffset(0, "bogus", "01::01").is_err());
}

#[test]
fn time_past_midnight_is_valid() {
    let t = parse_timeoffset(0, "stop_times.txt", "25:00:00").unwrap();
    assert_eq!(t.hours, 25);
    assert_eq!(t.minutes, 0);
    assert_eq!(t.seconds, 0);
}

#[test]
fn time_requires_exactly_three_parts() {
    assert_eq!(parse_time("1:02"), None);
    assert_eq!(parse_time("1:02:03:04"), None);
    assert_eq!(parse_time("1:02:03"), Some((1, 2, 3)));
}

#[test]
fn time_parts_allow_plus_sign_like_integer_parsing() {
    assert_eq!(parse_time("+1:01:01"), Some((1, 1, 1)));
    assert_eq!(parse_time("-1:01:01"), None);
}

#[test]
fn time_text_round_trip_samples() {
    let samples = [(0, 0, 0), (1, 1, 1), (25, 0, 0), (9, 59, 59), (123, 4, 5)];
    for (h, m, s) in samples {
        let t = TimeOffset::from_hms(h, m, s);
        let text = t.to_text();
        assert_eq!(parse_timeoffset(0, "f", text.as_str()).unwrap(), t);
    }
    assert_eq!(TimeOffset::from_hms(25, 3, 4).to_text(), "25:03:04");
    assert_eq!(TimeOffset::from_hms(0, 0, 0).to_text(), "0:00:00");
}

#[test]
fn time_offset_duration_counts_seconds() {
    assert_eq!(TimeOffset::from_hms(1, 2, 3).duration(), 3723);
    assert_eq!(TimeOffset::from_hms(0, 0, 0).duration(), 0);
}

#[test]
fn date_codec_accepts_only_real_days() {
    let d = field_date("20170101").unwrap();
    assert_eq!((d.year, d.month, d.day), (2017, 1, 1));
    let leap = field_date("20160229").unwrap();
    assert_eq!((leap.year, leap.month, leap.day), (2016, 2, 29));
    assert!(field_date("20170229").is_err());
    assert!(field_date("20171301").is_err());
    assert!(field_date("20170132").is_err());
    assert!(field_date("2017011").is_err());
    assert!(field_date("201701011").is_err());
    assert!(field_date("2017-1-1").is_err());
    assert!(field_date(" 20170101").is_err());
    assert!(field_date("").is_err());
}

#[test]
fn century_leap_rule() {
    assert!(field_date("19000229").is_err());
    assert!(field_date("20000229").is_ok());
}

#[test]
fn optional_date_codec_treats_empty_as_absent() {
    assert_eq!(field_opt_date("").unwrap(), None);
    let d = field_opt_date("20170101").unwrap().unwrap();
    assert_eq!((d.year, d.month, d.day), (2017, 1, 1));
    let f = field_opt_date("bogus").unwrap_err();
    assert_eq!(f.raw_value, "bogus");
    assert_eq!(f.reason, "Date must be in YYYYMMDD format");
}

#[test]
fn duration_codec() {
    assert_eq!(field_duration("").unwrap(), None);
    assert_eq!(field_duration("  ").unwrap(), None);
    assert_eq!(field_duration("60").unwrap(), Some(60));
    assert_eq!(field_duration(" -30 ").unwrap(), Some(-30));
    assert_eq!(field_duration("+45").unwrap(), Some(45));
    let f = field_duration("soon").unwrap_err();
    assert_eq!(f.raw_value, "soon");
    assert_eq!(f.reason, "transfers duration must be a number or blank");
}

#[test]
fn signed_integer_limits() {
    assert_eq!(parse_i64("9223372036854775807"), Some(i64::MAX));
    assert_eq!(parse_i64("-9223372036854775808"), Some(i64::MIN));
    assert_eq!(parse_i64("9223372036854775808"), None);
    assert_eq!(parse_i64("-9223372036854775809"), None);
    assert_eq!(parse_i64("-"), None);
    assert_eq!(parse_i64(""), None);
}

#[test]
fn unsigned_integer_limits() {
    assert_eq!(parse_u64("18446744073709551615"), Some(u64::MAX));
    assert_eq!(parse_u64("18446744073709551616"), None);
    assert_eq!(parse_u64("007"), Some(7));
    assert_eq!(parse_u64("+7"), Some(7));
    assert_eq!(parse_u64("7 "), None);
    assert_eq!(field_u64("12").unwrap(), 12);
    let f = field_u64("twelve").unwrap_err();
    assert_eq!(f.reason, "invalid digit found in string");
}

#[test]
fn attributed_integer_failure_names_file_and_line() {
    match parse_int(7, "stop_times.txt", "x1") {
        Err(Error::FieldError {
            file,
            line,
            field_name,
            raw_value,
            reason,
        }) => {
            assert_eq!(file, "stop_times.txt");
            assert_eq!(line, 7);
            assert_eq!(field_name, None);
            assert_eq!(raw_value, "x1");
            assert_eq!(reason, "invalid digit found in string");
        }
        other => panic!("expected a field error, got {:?}", other),
    }
    assert_eq!(parse_int(7, "stop_times.txt", "41").unwrap(), 41);
}

#[test]
fn decimal_text_grammar() {
    assert!(is_decimal("1"));
    assert!(is_decimal("1.5"));
    assert!(is_decimal("-0.5"));
    assert!(is_decimal("+12."));
    assert!(is_decimal(".5"));
    assert!(is_decimal("6.02e23"));
    assert!(is_decimal("6.02E-23"));
    assert!(!is_decimal(""));
    assert!(!is_decimal("."));
    assert!(!is_decimal("1.2.3"));
    assert!(!is_decimal("1e"));
    assert!(!is_decimal("e5"));
    assert!(!is_decimal("abc"));
    assert!(!is_decimal(" 1.5"));
}

#[test]
fn attributed_decimal_failure_keeps_text() {
    assert_eq!(parse_float(1, "stops.txt", "47.5").unwrap(), "47.5");
    match parse_float(3, "stops.txt", "north") {
        Err(Error::FieldError {
            file,
            line,
            raw_value,
            reason,
            ..
        }) => {
            assert_eq!(file, "stops.txt");
            assert_eq!(line, 3);
            assert_eq!(raw_value, "north");
            assert_eq!(reason, "invalid float literal");
        }
        other => panic!("expected a field error, got {:?}", other),
    }
}

#[test]
fn trimming_strips_ascii_whitespace_only() {
    assert_eq!(trim_str("  a b\t"), "a b");
    assert_eq!(trim_str(""), "");
    assert_eq!(trim_str(" \r\n "), "");
    assert_eq!(trim_str("x"), "x");
}
