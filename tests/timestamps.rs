use statemon::timestamp::{
    format_datetime_safe, now, normalize_at, parse_datetime, parse_instant, select_instant,
    UtcInstant,
};

const NOON_2024: i64 = 1_704_110_400_000_000;

fn micros_of(text: &str) -> i64 {
    parse_instant(text).expect("text should parse").micros
}

#[test]
fn rfc3339_with_zulu_parses() {
    assert_eq!(micros_of("2024-01-01T12:00:00Z"), NOON_2024);
}

#[test]
fn rfc3339_with_offset_converts_to_utc() {
    assert_eq!(micros_of("2024-01-01T15:00:00+03:00"), NOON_2024);
}

#[test]
fn offset_format_converts_to_utc() {
    assert_eq!(micros_of("2024-01-01 14:00:00.000000 +0200"), NOON_2024);
}

#[test]
fn fraction_format_is_read_as_utc() {
    assert_eq!(micros_of("2024-01-01 12:00:00.000001"), NOON_2024 + 1);
}

#[test]
fn seconds_format_is_read_as_utc() {
    assert_eq!(micros_of("2024-01-01 12:00:00"), NOON_2024);
}

#[test]
fn four_formats_agree_on_one_instant() {
    let texts = [
        "2024-01-01T12:00:00Z",
        "2024-01-01 12:00:00.000000 +0000",
        "2024-01-01 12:00:00.000000",
        "2024-01-01 12:00:00",
    ];
    for t in texts.iter() {
        assert_eq!(micros_of(t), NOON_2024, "{}", t);
    }
}

#[test]
fn finer_formats_agree_up_to_seconds() {
    let fine = micros_of("2024-03-05 06:07:08.123456");
    let coarse = micros_of("2024-03-05 06:07:08");
    let rfc = micros_of("2024-03-05T06:07:08.123456Z");
    assert_eq!(fine, rfc);
    assert_eq!(fine - fine.rem_euclid(1_000_000), coarse);
}

#[test]
fn unparseable_text_is_none() {
    assert!(parse_instant("not-a-date").is_none());
    assert!(parse_instant("").is_none());
}

#[test]
fn normalize_at_falls_back_to_given_instant() {
    let fallback = UtcInstant { micros: 42 };
    assert_eq!(normalize_at("not-a-date", fallback).micros, 42);
    assert_eq!(normalize_at("2024-01-01 12:00:00", fallback).micros, NOON_2024);
}

#[test]
fn parse_datetime_falls_back_to_clock() {
    let before = now().micros;
    let t = parse_datetime("garbage").micros;
    let after = now().micros;
    assert!(before <= t && t <= after);
    assert_eq!(parse_datetime("2024-01-01T12:00:00Z").micros, NOON_2024);
}

#[test]
fn select_instant_takes_first_match() {
    let n = UtcInstant { micros: 9 };
    assert_eq!(select_instant(Some(1), Some(2), Some(3), Some(4), n).micros, 1);
    assert_eq!(select_instant(None, Some(2), Some(3), Some(4), n).micros, 2);
    assert_eq!(select_instant(None, None, Some(3), Some(4), n).micros, 3);
    assert_eq!(select_instant(None, None, None, Some(4), n).micros, 4);
    assert_eq!(select_instant(None, None, None, None, n).micros, 9);
}

#[test]
fn canonical_text_has_six_fraction_digits() {
    let t = format_datetime_safe(&UtcInstant { micros: NOON_2024 }).unwrap();
    assert_eq!(t, "2024-01-01 12:00:00.000000");
    let u = format_datetime_safe(&UtcInstant { micros: NOON_2024 + 123_456 }).unwrap();
    assert_eq!(u, "2024-01-01 12:00:00.123456");
}

#[test]
fn canonical_text_round_trips() {
    let m = NOON_2024 + 987_654;
    let text = format_datetime_safe(&UtcInstant { micros: m }).unwrap();
    assert_eq!(micros_of(&text), m);
}

#[test]
fn instant_outside_calendar_has_no_text() {
    assert!(format_datetime_safe(&UtcInstant { micros: i64::MAX }).is_none());
}
