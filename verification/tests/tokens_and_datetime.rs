use chrono::{Datelike, Timelike};
use timetable_bot::calendar::Date;
use timetable_bot::datetime::{decode_rfc3339, encode_rfc3339, DateTime};
use timetable_bot::tokens::{
    decode_set_major, decode_weekday, encode_set_major, encode_weekday, ButtonPrefix,
};

fn dt(year: i32, month: u8, day: u8, hour: u8, minute: u8, second: u8, off: i16) -> DateTime {
    DateTime {
        date: Date { year, month, day },
        hour,
        minute,
        second,
        offset_minutes: off,
    }
}

#[test]
fn rfc3339_encoding_is_canonical() {
    let t = dt(2023, 9, 4, 8, 0, 0, 240);
    assert_eq!(encode_rfc3339(&t), "2023-09-04T08:00:00+04:00");
    let t2 = dt(987, 12, 31, 23, 59, 59, -330);
    assert_eq!(encode_rfc3339(&t2), "0987-12-31T23:59:59-05:30");
}

#[test]
fn rfc3339_agrees_with_chrono() {
    let t = dt(2023, 9, 4, 8, 0, 0, 240);
    let s = encode_rfc3339(&t);
    let parsed = chrono::DateTime::parse_from_rfc3339(&s).expect("chrono must accept it");
    assert_eq!(parsed.year(), 2023);
    assert_eq!(parsed.month(), 9);
    assert_eq!(parsed.day(), 4);
    assert_eq!(parsed.hour(), 8);
    assert_eq!(parsed.offset().local_minus_utc(), 4 * 3600);
}

#[test]
fn rfc3339_round_trips() {
    let samples = [
        dt(2023, 9, 4, 8, 0, 0, 240),
        dt(2024, 2, 29, 23, 59, 59, 0),
        dt(1, 1, 1, 0, 0, 0, -1439),
        dt(9999, 12, 31, 12, 30, 45, 1439),
    ];
    for t in samples {
        let s = encode_rfc3339(&t);
        assert_eq!(decode_rfc3339(&s), Some(t));
    }
}

#[test]
fn rfc3339_rejects_what_is_not_canonical() {
    assert_eq!(decode_rfc3339(""), None);
    assert_eq!(decode_rfc3339("not a date"), None);
    assert_eq!(decode_rfc3339("2023-09-04T08:00:00Z"), None); // not the canonical 25 chars
    assert_eq!(decode_rfc3339("2023-02-29T08:00:00+04:00"), None); // no such day
    assert_eq!(decode_rfc3339("2023-09-04T24:00:00+04:00"), None); // no such hour
    assert_eq!(decode_rfc3339("2023-09-04 08:00:00+04:00"), None); // wrong separator
    assert_eq!(decode_rfc3339("2023-09-04T08:00:00-00:00"), None); // negative zero offset
    assert_eq!(decode_rfc3339("2023-09-04T08:00:00+04:0x"), None);
}

#[test]
fn set_major_token_round_trips() {
    assert_eq!(encode_set_major("CS101"), "set-major:CS101");
    assert_eq!(decode_set_major("set-major:CS101").as_deref(), Some("CS101"));
    // Any id comes back exactly, colons included.
    let id = "a:b:c весёлый";
    let token = encode_set_major(id);
    assert_eq!(decode_set_major(&token).as_deref(), Some(id));
    assert_eq!(decode_set_major("set-major:").as_deref(), Some(""));
}

#[test]
fn unknown_tokens_are_ignored_by_both_receivers() {
    for bad in ["bogus:abc", "set-majorx:abc", "set-major", "timetable-weekday", ""] {
        assert_eq!(decode_set_major(bad), None);
        assert!(decode_weekday(bad).is_none());
    }
    // Prefix matching is exact, not substring.
    assert_eq!(decode_set_major("xset-major:abc"), None);
    assert!(decode_weekday("timetable-weekday:garbage").is_none());
}

#[test]
fn weekday_token_round_trips() {
    let t = dt(2023, 9, 4, 8, 0, 0, 240);
    let token = encode_weekday(&t);
    assert_eq!(token, "timetable-weekday:2023-09-04T08:00:00+04:00");
    assert_eq!(decode_weekday(&token), Some(t));
    // The two families never accept each other's tokens.
    assert_eq!(decode_set_major(&token), None);
    assert!(decode_weekday("set-major:CS101").is_none());
}

#[test]
fn button_prefix_texts() {
    assert_eq!(ButtonPrefix::SetMajor.text(), "set-major");
    assert_eq!(ButtonPrefix::TimetableWeekday.text(), "timetable-weekday");
}
