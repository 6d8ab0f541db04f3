use chat_client::text::{i32_to_string, usize_to_string, join_strings, split_once_char, contains_char, opt_string_eq};
use chat_client::time::{Timestamp, format_created_at, format_date, format_date_time, serialize_naive_date_time, deserialize_naive_date_time, timestamp_from_parse};

#[test]
fn decimal_rendering_matches_to_string() {
    for v in [0i32, 7, 10, 42, 100, 2024, -1, -305, i32::MAX, i32::MIN] {
        assert_eq!(i32_to_string(v), v.to_string());
    }
    assert_eq!(usize_to_string(0), "0");
    assert_eq!(usize_to_string(19), "19");
}

#[test]
fn join_puts_separator_between_neighbours() {
    let parts = vec!["ann".to_string(), "bob".to_string(), "cy".to_string()];
    assert_eq!(join_strings(&parts, ","), "ann,bob,cy");
    assert_eq!(join_strings(&vec!["solo".to_string()], ","), "solo");
    assert_eq!(join_strings(&vec![], ","), "");
}

#[test]
fn split_at_first_separator() {
    assert_eq!(split_once_char("globe:#ff0000", ':'), ("globe".to_string(), "#ff0000".to_string()));
    assert_eq!(split_once_char("a:b:c", ':'), ("a".to_string(), "b:c".to_string()));
    assert_eq!(split_once_char("plain", ':'), ("plain".to_string(), String::new()));
    assert_eq!(split_once_char("ünï:cödé", ':'), ("ünï".to_string(), "cödé".to_string()));
    assert!(contains_char("a:b", ':'));
    assert!(!contains_char("ab", ':'));
}

#[test]
fn optional_strings_compare_by_text() {
    assert!(opt_string_eq(&Some("x".to_string()), &Some("x".to_string())));
    assert!(!opt_string_eq(&Some("x".to_string()), &None));
    assert!(opt_string_eq(&None, &None));
}

#[test]
fn timestamp_rejects_impossible_dates() {
    assert!(Timestamp::new(2024, 2, 29, 0, 0, 0, 0).is_some());
    assert!(Timestamp::new(2023, 2, 29, 0, 0, 0, 0).is_none());
    assert!(Timestamp::new(1900, 2, 29, 0, 0, 0, 0).is_none());
    assert!(Timestamp::new(2000, 2, 29, 0, 0, 0, 0).is_some());
    assert!(Timestamp::new(2024, 4, 31, 0, 0, 0, 0).is_none());
    assert!(Timestamp::new(2024, 13, 1, 0, 0, 0, 0).is_none());
    assert!(Timestamp::new(2024, 1, 1, 24, 0, 0, 0).is_none());
    assert!(Timestamp::new(2024, 1, 1, 23, 59, 59, 1_500_000_000).is_some());
    assert!(Timestamp::new(2024, 1, 1, 23, 59, 58, 1_500_000_000).is_none());
    assert!(Timestamp::new(262143, 1, 1, 0, 0, 0, 0).is_none());
    assert!(Timestamp::new(-262143, 1, 1, 0, 0, 0, 0).is_some());
}

#[test]
fn epoch_is_the_unset_value() {
    let e = Timestamp::epoch();
    assert_eq!((e.year(), e.month(), e.day(), e.hour(), e.minute(), e.second(), e.nanosecond()), (1970, 1, 1, 0, 0, 0, 0));
    assert_eq!(Timestamp::default(), e);
}

#[test]
fn created_at_uses_twelve_hour_clock() {
    let ts = Timestamp::new(2024, 3, 5, 14, 7, 9, 0).unwrap();
    assert_eq!(format_created_at(&ts), "03/05/2024 02:07 PM");
    let midnight = Timestamp::new(2024, 12, 31, 0, 5, 0, 0).unwrap();
    assert_eq!(format_created_at(&midnight), "12/31/2024 12:05 AM");
    let noon = Timestamp::new(999, 1, 2, 12, 0, 0, 0).unwrap();
    assert_eq!(format_created_at(&noon), "01/02/0999 12:00 PM");
}

#[test]
fn other_date_renderings() {
    let ts = Timestamp::new(2024, 3, 5, 14, 7, 9, 250_000_000).unwrap();
    assert_eq!(format_date(&ts), "03-05-2024 14:07:09");
    assert_eq!(format_date_time(&ts), "2024-03-05 14:07:09");
    assert_eq!(serialize_naive_date_time(&ts), "2024-03-05T14:07:09");
    let leap = Timestamp::new(2016, 12, 31, 23, 59, 59, 1_000_000_000).unwrap();
    assert_eq!(format_date(&leap), "12-31-2016 23:59:60");
}

#[test]
fn server_timestamps_parse() {
    let ts = deserialize_naive_date_time("2024-01-15T10:30:00").ok().unwrap();
    assert_eq!(ts, Timestamp::new(2024, 1, 15, 10, 30, 0, 0).unwrap());
    let frac = deserialize_naive_date_time("2024-01-15T10:30:00.123456").ok().unwrap();
    assert_eq!(frac.nanosecond(), 123_456_000);
    assert!(deserialize_naive_date_time("2024-02-30T10:30:00").is_err());
    assert!(deserialize_naive_date_time("yesterday").is_err());
    let err = deserialize_naive_date_time("2024-01-15").err().unwrap();
    assert!(!err.cause.to_string().is_empty());
}

#[test]
fn serialized_timestamps_parse_back() {
    let ts = Timestamp::new(1999, 12, 31, 23, 59, 58, 0).unwrap();
    let text = serialize_naive_date_time(&ts);
    assert_eq!(deserialize_naive_date_time(&text).ok().unwrap(), ts);
}

#[test]
fn years_outside_four_digits_carry_a_sign() {
    let far = Timestamp::new(12345, 6, 7, 8, 9, 10, 0).unwrap();
    assert_eq!(serialize_naive_date_time(&far), "+12345-06-07T08:09:10");
    let past = Timestamp::new(-5, 1, 2, 3, 4, 5, 0).unwrap();
    assert_eq!(serialize_naive_date_time(&past), "-0005-01-02T03:04:05");
    assert_eq!(format_created_at(&past), "01/02/-0005 03:04 AM");
    let ancient = Timestamp::new(-12345, 1, 2, 13, 4, 5, 0).unwrap();
    assert_eq!(format_date(&ancient), "01-02--12345 13:04:05");
}

#[test]
fn parse_results_map_to_library_values() {
    let ts = Timestamp::new(2023, 3, 9, 8, 5, 1, 0).unwrap();
    let kept = timestamp_from_parse(Ok(ts.clone())).unwrap();
    assert_eq!(kept.year(), 2023);
    assert_eq!(kept.second(), 1);
    let cause = chrono::NaiveDateTime::parse_from_str("noon", "%Y").unwrap_err();
    let err = timestamp_from_parse(Err(cause)).unwrap_err();
    assert_eq!(err.cause, cause);
}
