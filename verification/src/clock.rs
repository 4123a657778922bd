//! The clock field: time of day and date in a named time zone.
//!
//! The zone is looked up by name in the tz database that `chrono-tz` carries,
//! and the instant is laid out by `chrono`. A name that the database does not
//! know is no reason to stop: the field then shows the reason in place of the
//! time. Nor is a system clock that gives no usable instant: the field then
//! shows a fixed text.

use vstd::prelude::*;
use vstd::string::*;
use std::str::FromStr;
use chrono::{DateTime, NaiveDateTime};
use chrono_tz::Tz;
use crate::text::{digit_value, is_digit_char, lemma_nul_free_concat, nul_free};

verus! {

/// The layout of the field: hours, minutes and seconds, then month and day.
pub const CLOCK_PATTERN: &'static str = "%H:%M:%S %m/%d";

/// What the field shows for a known zone when the system clock gives no
/// instant that can be laid out: it stands before 1970, or further from it
/// than `chrono` can hold.
pub const NO_INSTANT: &'static str = "system time out of range";

/// `chrono_tz::Tz`, one time zone of the tz database. Nothing is known of a
/// value but which value it is.
#[verifier::external_type_specification]
#[verifier::external_body]
pub struct ExTz(chrono_tz::Tz);

/// `chrono::NaiveDateTime`, a date and time of day without a zone; here
/// always read as UTC. Nothing is known of a value but which value it is.
#[verifier::external_type_specification]
#[verifier::external_body]
pub struct ExNaiveDateTime(chrono::NaiveDateTime);

/// The zone that the tz database lists under `name`, if it lists one:
/// what `chrono-tz` finds in its table of zone names.
pub uninterp spec fn zone_named(name: Seq<char>) -> Option<chrono_tz::Tz>;

/// The text that `chrono` writes for the instant `at` (in UTC) as seen in
/// `zone`, laid out by the strftime pattern `pattern`.
pub uninterp spec fn zone_clock_text(
    zone: chrono_tz::Tz,
    at: chrono::NaiveDateTime,
    pattern: Seq<char>,
) -> Seq<char>;

/// The instant, in UTC, that lies `seconds` after the start of 1970, if
/// `chrono` can hold it.
pub uninterp spec fn instant_of(seconds: int) -> Option<chrono::NaiveDateTime>;

/// The number that the two digits from `i` on write.
pub open spec fn two_digits(text: Seq<char>, i: int) -> nat {
    digit_value(text[i]) * 10 + digit_value(text[i + 1])
}

/// The shape of a time in the field's layout: two digits each for the hour,
/// the minute, the second, the month and the day, each within its range, as
/// in `14:03:21 06/01`. A leap second is written as second 60.
pub open spec fn clock_shaped(text: Seq<char>) -> bool {
    &&& text.len() == 14
    &&& text[2] == ':'
    &&& text[5] == ':'
    &&& text[8] == ' '
    &&& text[11] == '/'
    &&& forall|i: int|
        0 <= i < 14 && i != 2 && i != 5 && i != 8 && i != 11 ==> is_digit_char(#[trigger] text[i])
    &&& two_digits(text, 0) <= 23
    &&& two_digits(text, 3) <= 59
    &&& two_digits(text, 6) <= 60
    &&& 1 <= two_digits(text, 9) <= 12
    &&& 1 <= two_digits(text, 12) <= 31
}

/// A time in the field's layout holds no NUL.
pub proof fn lemma_clock_shaped_nul_free(text: Seq<char>)
    requires
        clock_shaped(text),
    ensures
        nul_free(text),
{
    assert forall|i: int| 0 <= i < text.len() implies text[i] != '\0' by {
        if i != 2 && i != 5 && i != 8 && i != 11 {
            assert(is_digit_char(text[i]));
        }
    }
}

/// What takes the place of the time when `name` is no zone's name.
pub open spec fn rejection(name: Seq<char>) -> Seq<char> {
    "'"@ + name + "' is not a valid timezone"@
}

/// The text that stands in for the time holds no NUL.
pub proof fn lemma_no_instant_nul_free()
    ensures
        nul_free(NO_INSTANT@),
{
    reveal_strlit("system time out of range");
}

/// The clock field of `zone` for what the system clock gave: the seconds
/// since the start of 1970, or nothing where it stands before that.
pub open spec fn zone_time_text(zone: Tz, elapsed: Option<u64>) -> Seq<char> {
    match elapsed {
        Some(seconds) => if seconds <= i64::MAX {
            match instant_of(seconds as int) {
                Some(at) => zone_clock_text(zone, at, CLOCK_PATTERN@),
                None => NO_INSTANT@,
            }
        } else {
            NO_INSTANT@
        },
        None => NO_INSTANT@,
    }
}

/// The clock field for the zone called `name` at the instant `at`.
pub open spec fn clock_text(name: Seq<char>, at: NaiveDateTime) -> Seq<char> {
    match zone_named(name) {
        Some(zone) => zone_clock_text(zone, at, CLOCK_PATTERN@),
        None => rejection(name),
    }
}

/// A name that is no zone's gives the rejection text at every instant, and
/// the text holds a NUL only where the name does.
pub proof fn lemma_unknown_zone_is_rejected(name: Seq<char>, at: NaiveDateTime)
    requires
        zone_named(name) is None,
    ensures
        clock_text(name, at) == rejection(name),
        nul_free(clock_text(name, at)) <==> nul_free(name),
{
    reveal_strlit("'");
    reveal_strlit("' is not a valid timezone");
    lemma_nul_free_concat("'"@, name);
    lemma_nul_free_concat("'"@ + name, "' is not a valid timezone"@);
}

/// Looks a zone up by name, with `<chrono_tz::Tz as FromStr>::from_str`.
///
/// Trusted: the lookup succeeds exactly for the names in the crate's table,
/// which `zone_named` stands for, and otherwise returns the name between
/// single quotes followed by ` is not a valid timezone`.
#[verifier::external_body]
fn parse_zone(name: &str) -> (parsed: Result<Tz, String>)
    ensures
        match parsed {
            Ok(zone) => zone_named(name@) == Some(zone),
            Err(reason) => zone_named(name@) is None && reason@ == rejection(name@),
        },
{
    Tz::from_str(name)
}

/// Reads the system clock, with `std::time::SystemTime::elapsed` on the
/// start of 1970.
///
/// Trusted, and nothing is claimed of what comes back: the whole seconds
/// since then, or `None` where the clock stands before it.
#[verifier::external_body]
fn seconds_since_epoch() -> Option<u64> {
    match std::time::UNIX_EPOCH.elapsed() {
        Ok(elapsed) => Some(elapsed.as_secs()),
        Err(_) => None,
    }
}

/// Makes an instant of a number of seconds, with
/// `chrono::DateTime::from_timestamp`.
///
/// Trusted: the outcome depends on the number alone, and `instant_of`
/// stands for it; `chrono` gives `None` for a number out of its range.
#[verifier::external_body]
fn instant_at(seconds: i64) -> (at: Option<NaiveDateTime>)
    ensures
        at == instant_of(seconds as int),
{
    match DateTime::from_timestamp(seconds, 0) {
        Some(at) => Some(at.naive_utc()),
        None => None,
    }
}

/// Lays an instant out as local time in `zone`, with
/// `chrono::DateTime::with_timezone` and `chrono::DateTime::format`.
///
/// Trusted: the text depends on the zone, the instant and the pattern alone,
/// the zone's rules being compiled into `chrono-tz`; `zone_clock_text` stands
/// for it. The pattern is held to the one that the field uses, which
/// `chrono` accepts and for which it writes the hour (0 to 23), the minute
/// (0 to 59), the second (0 to 60), the month (1 to 12) and the day (1 to
/// 31) with two digits each. The zoned instant in between is a
/// `chrono::DateTime<Tz>` and does not leave this function.
#[verifier::external_body]
fn local_clock(zone: &Tz, at: &NaiveDateTime, pattern: &str) -> (text: String)
    requires
        pattern@ == CLOCK_PATTERN@,
    ensures
        text@ == zone_clock_text(*zone, *at, pattern@),
        clock_shaped(text@),
{
    at.and_utc().with_timezone(zone).format(pattern).to_string()
}

/// The clock field, from the outcome of the zone lookup.
///
/// A zone gives the local time at `at`; a failed lookup gives its reason,
/// unchanged.
pub fn clock_field(parsed: Result<Tz, String>, at: &NaiveDateTime) -> (text: String)
    ensures
        text@ == match parsed {
            Ok(zone) => zone_clock_text(zone, *at, CLOCK_PATTERN@),
            Err(reason) => reason@,
        },
        parsed is Ok ==> clock_shaped(text@),
{
    match parsed {
        Ok(zone) => local_clock(&zone, at, CLOCK_PATTERN),
        Err(reason) => reason,
    }
}

/// The clock field for the zone called `timezone` at the instant `at`, read
/// as UTC.
pub fn time_at(timezone: &str, at: &NaiveDateTime) -> (text: String)
    ensures
        text@ == clock_text(timezone@, *at),
        zone_named(timezone@) is Some ==> clock_shaped(text@),
{
    clock_field(parse_zone(timezone), at)
}

/// The clock field of `zone` for what the system clock gave: the seconds
/// since the start of 1970, or `None` where it stands before that.
///
/// Seconds that make an instant give the local time at it; without an
/// instant the field is `NO_INSTANT`.
pub fn zone_time(zone: &Tz, elapsed: Option<u64>) -> (text: String)
    ensures
        text@ == zone_time_text(*zone, elapsed),
        clock_shaped(text@) || text@ == NO_INSTANT@,
{
    match elapsed {
        Some(seconds) => {
            if seconds > 0x7FFF_FFFF_FFFF_FFFF {
                return NO_INSTANT.to_owned();
            }
            match instant_at(seconds as i64) {
                Some(at) => local_clock(zone, &at, CLOCK_PATTERN),
                None => NO_INSTANT.to_owned(),
            }
        },
        None => NO_INSTANT.to_owned(),
    }
}

/// The clock field for the zone called `timezone`, now.
///
/// The zone is looked up first. A name that is no zone's gives the
/// rejection text and the system clock is not read at all. For a known zone
/// the clock is read; what it gives is not known here, and whatever it is,
/// the field is the one that `zone_time` gives for it.
pub fn get_time(timezone: &str) -> (text: String)
    ensures
        match zone_named(timezone@) {
            Some(zone) => exists|elapsed: Option<u64>| text@ == zone_time_text(zone, elapsed),
            None => text@ == rejection(timezone@),
        },
        zone_named(timezone@) is Some ==> clock_shaped(text@) || text@ == NO_INSTANT@,
{
    match parse_zone(timezone) {
        Ok(zone) => {
            let elapsed: Option<u64> = seconds_since_epoch();
            let text = zone_time(&zone, elapsed);
            proof {
                let known: Tz = zone_named(timezone@).unwrap();
                assert(text@ == zone_time_text(known, elapsed));
            }
            text
        },
        Err(reason) => reason,
    }
}

} // verus!
