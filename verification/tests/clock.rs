use chrono::{NaiveDate, NaiveDateTime};
use chrono_tz::Tz;
use statusbar::clock::{
    clock_field, get_time, time_at, zone_time, CLOCK_PATTERN, NO_INSTANT,
};

fn instant(year: i32, month: u32, day: u32, hour: u32, minute: u32, second: u32) -> NaiveDateTime {
    NaiveDate::from_ymd_opt(year, month, day).unwrap().and_hms_opt(hour, minute, second).unwrap()
}

#[test]
fn denver_summer_time_is_six_hours_behind_utc() {
    let at = instant(2024, 6, 1, 20, 3, 21);
    assert_eq!(time_at("America/Denver", &at), "14:03:21 06/01");
}

#[test]
fn denver_winter_time_is_seven_hours_behind_utc() {
    let at = instant(2024, 1, 15, 12, 0, 0);
    assert_eq!(time_at("America/Denver", &at), "05:00:00 01/15");
}

#[test]
fn date_follows_the_zone_across_midnight() {
    let at = instant(2024, 3, 1, 2, 30, 5);
    assert_eq!(time_at("America/Denver", &at), "19:30:05 02/29");
    assert_eq!(time_at("Asia/Tokyo", &at), "11:30:05 03/01");
    assert_eq!(time_at("UTC", &at), "02:30:05 03/01");
}

#[test]
fn unknown_zone_gives_the_parser_text() {
    assert_eq!(get_time("Mars/Olympus"), "'Mars/Olympus' is not a valid timezone");
    assert_eq!(get_time(""), "'' is not a valid timezone");
    assert_eq!(get_time("america/denver"), "'america/denver' is not a valid timezone");
    let at = instant(2024, 6, 1, 20, 3, 21);
    assert_eq!(time_at("Mars/Olympus", &at), "'Mars/Olympus' is not a valid timezone");
}

#[test]
fn parser_text_keeps_the_name_as_it_was_given() {
    assert_eq!(get_time("a\0b"), "'a\0b' is not a valid timezone");
    assert_eq!(get_time("Z\u{fc}rich"), "'Z\u{fc}rich' is not a valid timezone");
}

fn two_digits(bytes: &[u8], i: usize) -> u32 {
    assert!(bytes[i].is_ascii_digit() && bytes[i + 1].is_ascii_digit());
    u32::from(bytes[i] - b'0') * 10 + u32::from(bytes[i + 1] - b'0')
}

fn assert_clock_shaped(text: &str) {
    let bytes = text.as_bytes();
    assert_eq!(bytes.len(), 14);
    assert_eq!(bytes[2], b':');
    assert_eq!(bytes[5], b':');
    assert_eq!(bytes[8], b' ');
    assert_eq!(bytes[11], b'/');
    assert!(two_digits(bytes, 0) <= 23);
    assert!(two_digits(bytes, 3) <= 59);
    assert!(two_digits(bytes, 6) <= 60);
    assert!((1..=12).contains(&two_digits(bytes, 9)));
    assert!((1..=31).contains(&two_digits(bytes, 12)));
}

#[test]
fn time_now_has_the_documented_shape() {
    assert_clock_shaped(&get_time("America/Denver"));
    assert_clock_shaped(&get_time("UTC"));
}

#[test]
fn times_at_the_edges_have_the_documented_shape() {
    assert_clock_shaped(&time_at("Pacific/Kiritimati", &NaiveDateTime::MAX));
    assert_clock_shaped(&time_at("Pacific/Niue", &NaiveDateTime::MIN));
    let leap = NaiveDate::from_ymd_opt(2016, 12, 31)
        .unwrap()
        .and_hms_milli_opt(23, 59, 59, 1_000)
        .unwrap();
    assert_eq!(time_at("UTC", &leap), "23:59:60 12/31");
    assert_clock_shaped(&time_at("UTC", &leap));
}

#[test]
fn seconds_since_1970_give_the_local_time() {
    assert_eq!(zone_time(&Tz::America__Denver, Some(1_717_272_201)), "14:03:21 06/01");
    assert_eq!(zone_time(&Tz::America__Denver, Some(1_705_320_000)), "05:00:00 01/15");
    assert_eq!(zone_time(&Tz::UTC, Some(0)), "00:00:00 01/01");
    assert_eq!(zone_time(&Tz::UTC, Some(86_399)), "23:59:59 01/01");
}

#[test]
fn clock_without_an_instant_shows_the_placeholder() {
    assert_eq!(NO_INSTANT, "system time out of range");
    assert_eq!(zone_time(&Tz::America__Denver, None), "system time out of range");
    assert_eq!(zone_time(&Tz::UTC, Some(u64::MAX)), "system time out of range");
    assert_eq!(zone_time(&Tz::UTC, Some(i64::MAX as u64)), "system time out of range");
    assert_eq!(zone_time(&Tz::UTC, Some(i64::MAX as u64 + 1)), "system time out of range");
    assert_eq!(zone_time(&Tz::UTC, Some(9_000_000_000_000)), "system time out of range");
}

#[test]
fn latest_instant_that_can_be_held_is_laid_out() {
    let last = NaiveDateTime::MAX.and_utc().timestamp() as u64;
    assert_clock_shaped(&zone_time(&Tz::UTC, Some(last)));
    assert_eq!(zone_time(&Tz::UTC, Some(last)), "23:59:59 12/31");
    assert_eq!(zone_time(&Tz::UTC, Some(last + 1)), "system time out of range");
}

#[test]
fn failed_lookup_is_shown_in_place_of_the_time() {
    let at = instant(2024, 6, 1, 20, 3, 21);
    let parsed: Result<Tz, String> = Err(String::from("no such zone"));
    assert_eq!(clock_field(parsed, &at), "no such zone");
}

#[test]
fn found_zone_gives_its_local_time() {
    let at = instant(2024, 6, 1, 20, 3, 21);
    assert_eq!(clock_field(Ok(Tz::Europe__Paris), &at), "22:03:21 06/01");
    assert_eq!(clock_field(Ok(Tz::America__Denver), &at), "14:03:21 06/01");
}

#[test]
fn clock_pattern_is_time_then_month_and_day() {
    assert_eq!(CLOCK_PATTERN, "%H:%M:%S %m/%d");
}
