//! Calendar timestamps without a time zone, as the chat server sends them,
//! and their renderings.

use vstd::prelude::*;
use chrono::{Datelike, Timelike};
use crate::text::{digit_char, nat_decimal};

verus! {

/// The earliest year that a timestamp can hold.
pub open spec fn min_year() -> int {
    -262143
}

/// The latest year that a timestamp can hold.
pub open spec fn max_year() -> int {
    262142
}

/// Leap years of the proleptic Gregorian calendar.
pub open spec fn is_leap_year(year: int) -> bool {
    (year % 4 == 0 && year % 100 != 0) || year % 400 == 0
}

/// Number of days of a month (1 to 12) of a year.
pub open spec fn days_in_month(year: int, month: int) -> int {
    if month == 2 {
        if is_leap_year(year) {
            29
        } else {
            28
        }
    } else if month == 4 || month == 6 || month == 9 || month == 11 {
        30
    } else {
        31
    }
}

/// When the parts name an existing date and time of day. A nanosecond count
/// of one second or more stands for a leap second and only follows second 59.
pub open spec fn valid_parts(
    year: int,
    month: int,
    day: int,
    hour: int,
    minute: int,
    second: int,
    nanosecond: int,
) -> bool {
    &&& min_year() <= year <= max_year()
    &&& 1 <= month <= 12
    &&& 1 <= day <= days_in_month(year, month)
    &&& 0 <= hour < 24
    &&& 0 <= minute < 60
    &&& 0 <= second < 60
    &&& 0 <= nanosecond < 2_000_000_000
    &&& nanosecond >= 1_000_000_000 ==> second == 59
}

/// Law: the calendar that timestamps follow. Within the years a timestamp
/// can hold and for any time of day: every month has days 1 to 28; day 29
/// exists except in February of a year that is not a leap year, a leap year
/// being one divisible by 4 and not by 100, or divisible by 400; day 30
/// exists in every month but February; day 31 exists exactly in January,
/// March, May, July, August, October and December; no month has a day 0 or
/// a day 32, and there is no month 0 or 13.
pub proof fn law_calendar(year: int, month: int, day: int, hour: int, minute: int, second: int)
    requires
        -262143 <= year <= 262142,
        0 <= hour < 24,
        0 <= minute < 60,
        0 <= second < 60,
    ensures
        1 <= month <= 12 && 1 <= day <= 28 ==> valid_parts(year, month, day, hour, minute, second, 0),
        1 <= month <= 12 && month != 2 ==> valid_parts(year, month, 29, hour, minute, second, 0),
        valid_parts(year, 2, 29, hour, minute, second, 0) <==> ((year % 4 == 0 && year % 100 != 0)
            || year % 400 == 0),
        valid_parts(year, month, 30, hour, minute, second, 0) <==> (1 <= month <= 12 && month != 2),
        valid_parts(year, month, 31, hour, minute, second, 0) <==> (month == 1 || month == 3 || month
            == 5 || month == 7 || month == 8 || month == 10 || month == 12),
        !valid_parts(year, month, 0, hour, minute, second, 0),
        !valid_parts(year, month, 32, hour, minute, second, 0),
        !valid_parts(year, 0, day, hour, minute, second, 0),
        !valid_parts(year, 13, day, hour, minute, second, 0),
{
}

/// A date and time of day without time zone.
#[derive(Clone, Copy, Debug, PartialEq, Eq, Structural)]
pub struct Timestamp {
    year: i32,
    month: u32,
    day: u32,
    hour: u32,
    minute: u32,
    second: u32,
    nanosecond: u32,
}

/// The parts of a timestamp, from the year down to the nanosecond.
pub type TimestampParts = (int, int, int, int, int, int, int);

impl Timestamp {
    #[verifier::type_invariant]
    pub closed spec fn valid(self) -> bool {
        valid_parts(
            self.year as int,
            self.month as int,
            self.day as int,
            self.hour as int,
            self.minute as int,
            self.second as int,
            self.nanosecond as int,
        )
    }

    /// The parts of the timestamp.
    pub closed spec fn parts(self) -> TimestampParts {
        (
            self.year as int,
            self.month as int,
            self.day as int,
            self.hour as int,
            self.minute as int,
            self.second as int,
            self.nanosecond as int,
        )
    }

    /// The second as clocks show it: 60 during a leap second.
    pub closed spec fn shown_second(self) -> int {
        self.second + self.nanosecond / 1_000_000_000
    }

    /// Builds a timestamp from its parts; `None` when they name no existing
    /// date and time.
    pub fn new(
        year: i32,
        month: u32,
        day: u32,
        hour: u32,
        minute: u32,
        second: u32,
        nanosecond: u32,
    ) -> (ts: Option<Timestamp>)
        ensures
            ts is Some <==> valid_parts(
                year as int,
                month as int,
                day as int,
                hour as int,
                minute as int,
                second as int,
                nanosecond as int,
            ),
            ts matches Some(t) ==> t.parts() == (
                year as int,
                month as int,
                day as int,
                hour as int,
                minute as int,
                second as int,
                nanosecond as int,
            ),
    {
        if year < -262143 || year > 262142 || month < 1 || month > 12 || day < 1 {
            return None;
        }
        let leap = (year % 4 == 0 && year % 100 != 0) || year % 400 == 0;
        proof {
            assert(leap == is_leap_year(year as int)) by {
                assert((year % 4 == 0) == ((year as int) % 4 == 0));
                assert((year % 100 == 0) == ((year as int) % 100 == 0));
                assert((year % 400 == 0) == ((year as int) % 400 == 0));
            }
        }
        let month_days: u32 = if month == 2 {
            if leap {
                29
            } else {
                28
            }
        } else if month == 4 || month == 6 || month == 9 || month == 11 {
            30
        } else {
            31
        };
        if day > month_days || hour >= 24 || minute >= 60 || second >= 60 {
            return None;
        }
        if nanosecond >= 2_000_000_000 || (nanosecond >= 1_000_000_000 && second != 59) {
            return None;
        }
        Some(Timestamp { year, month, day, hour, minute, second, nanosecond })
    }

    /// Midnight of 1 January 1970.
    pub closed spec fn spec_epoch() -> Timestamp {
        Timestamp { year: 1970, month: 1, day: 1, hour: 0, minute: 0, second: 0, nanosecond: 0 }
    }

    /// Midnight of 1 January 1970, the value that an unset timestamp takes.
    pub fn epoch() -> (ts: Timestamp)
        ensures
            ts == Timestamp::spec_epoch(),
            ts.parts() == (1970int, 1int, 1int, 0int, 0int, 0int, 0int),
    {
        Timestamp { year: 1970, month: 1, day: 1, hour: 0, minute: 0, second: 0, nanosecond: 0 }
    }

    pub fn year(&self) -> (y: i32)
        ensures
            y == self.parts().0,
    {
        self.year
    }

    pub fn month(&self) -> (m: u32)
        ensures
            m == self.parts().1,
    {
        self.month
    }

    pub fn day(&self) -> (d: u32)
        ensures
            d == self.parts().2,
    {
        self.day
    }

    pub fn hour(&self) -> (h: u32)
        ensures
            h == self.parts().3,
    {
        self.hour
    }

    pub fn minute(&self) -> (m: u32)
        ensures
            m == self.parts().4,
    {
        self.minute
    }

    pub fn second(&self) -> (s: u32)
        ensures
            s == self.parts().5,
    {
        self.second
    }

    pub fn nanosecond(&self) -> (n: u32)
        ensures
            n == self.parts().6,
    {
        self.nanosecond
    }
}

impl Default for Timestamp {
    fn default() -> (ts: Timestamp)
        ensures
            ts == Timestamp::spec_epoch(),
            ts.parts() == (1970int, 1int, 1int, 0int, 0int, 0int, 0int),
    {
        Timestamp::epoch()
    }
}

/// Two decimal digits, zero-padded, of a value below 100.
pub open spec fn two_digits(v: int) -> Seq<char> {
    seq![digit_char(v / 10), digit_char(v % 10)]
}

/// Four decimal digits, zero-padded, of a value below 10000.
pub open spec fn four_digits(v: int) -> Seq<char> {
    seq![digit_char(v / 1000), digit_char(v / 100 % 10), digit_char(v / 10 % 10), digit_char(v % 10)]
}

/// The year as `%Y` writes it: four zero-padded digits from 0 to 9999,
/// otherwise a sign and at least four digits.
pub open spec fn year_text(year: int) -> Seq<char> {
    if 0 <= year <= 9999 {
        four_digits(year)
    } else if year > 9999 {
        seq!['+'] + nat_decimal(year as nat)
    } else if -year <= 9999 {
        seq!['-'] + four_digits(-year)
    } else {
        seq!['-'] + nat_decimal((-year) as nat)
    }
}

/// The hour on a twelve-hour clock: 12 for noon and midnight.
pub open spec fn hour12(hour: int) -> int {
    if hour % 12 == 0 {
        12
    } else {
        hour % 12
    }
}

/// The half of the day.
pub open spec fn am_pm(hour: int) -> Seq<char> {
    if hour < 12 {
        seq!['A', 'M']
    } else {
        seq!['P', 'M']
    }
}

/// `MM/DD/YYYY hh:mm AM`, the way posts and messages show when they were
/// written.
pub open spec fn us_date_time_12h(p: TimestampParts) -> Seq<char> {
    two_digits(p.1) + seq!['/'] + two_digits(p.2) + seq!['/'] + year_text(p.0) + seq![' ']
        + two_digits(hour12(p.3)) + seq![':'] + two_digits(p.4) + seq![' '] + am_pm(p.3)
}

/// `MM-DD-YYYY HH:MM:SS`, the way reports and friend lists show dates.
pub open spec fn us_date_time_24h(p: TimestampParts, shown_second: int) -> Seq<char> {
    two_digits(p.1) + seq!['-'] + two_digits(p.2) + seq!['-'] + year_text(p.0) + seq![' ']
        + two_digits(p.3) + seq![':'] + two_digits(p.4) + seq![':'] + two_digits(shown_second)
}

/// `YYYY-MM-DD` and `HH:MM:SS` with a separator between them.
pub open spec fn iso_date_time(p: TimestampParts, shown_second: int, sep: char) -> Seq<char> {
    year_text(p.0) + seq!['-'] + two_digits(p.1) + seq!['-'] + two_digits(p.2) + seq![sep]
        + two_digits(p.3) + seq![':'] + two_digits(p.4) + seq![':'] + two_digits(shown_second)
}

/// Renders a timestamp with `chrono::NaiveDateTime::format` and `to_string`.
/// The calls are made only with the four patterns of this library, for which
/// chrono's items all apply to a date and time, so the rendering cannot fail.
/// What the contract states follows chrono's documentation and its
/// `format/formatting.rs`: `%Y` is the year with four zero-padded digits
/// from 0 to 9999 and with a sign and at least four digits otherwise, `%m`,
/// `%d`, `%H`, `%M`, `%I` two zero-padded digits, `%S` the second with 60
/// during a leap second, `%p` `AM` before noon and `PM` after, and every
/// other character is copied. The parts of a valid timestamp name an
/// existing date and time, so chrono's `from_ymd_opt` and `and_hms_nano_opt`
/// return values for them.
#[verifier::external_body]
fn chrono_format(ts: &Timestamp, pattern: &str) -> (s: String)
    requires
        ts.valid(),
        pattern@ == "%m/%d/%Y %I:%M %p"@ || pattern@ == "%m-%d-%Y %H:%M:%S"@ || pattern@
            == "%Y-%m-%dT%H:%M:%S"@ || pattern@ == "%Y-%m-%d %H:%M:%S"@,
    ensures
        pattern@ == "%m/%d/%Y %I:%M %p"@ ==> s@ == us_date_time_12h(
            ts.parts(),
        ),
        pattern@ == "%m-%d-%Y %H:%M:%S"@ ==> s@ == us_date_time_24h(
            ts.parts(),
            ts.shown_second(),
        ),
        pattern@ == "%Y-%m-%dT%H:%M:%S"@ ==> s@ == iso_date_time(
            ts.parts(),
            ts.shown_second(),
            'T',
        ),
        pattern@ == "%Y-%m-%d %H:%M:%S"@ ==> s@ == iso_date_time(
            ts.parts(),
            ts.shown_second(),
            ' ',
        ),
{
    let date = chrono::NaiveDate::from_ymd_opt(ts.year, ts.month, ts.day).unwrap();
    let dt = date.and_hms_nano_opt(ts.hour, ts.minute, ts.second, ts.nanosecond).unwrap();
    dt.format(pattern).to_string()
}

/// `MM/DD/YYYY hh:mm AM`, as posts, messages and channels show their
/// creation time.
pub fn format_created_at(ts: &Timestamp) -> (s: String)
    ensures
        s@ == us_date_time_12h(ts.parts()),
{
    proof {
        use_type_invariant(ts);
    }
    chrono_format(ts, "%m/%d/%Y %I:%M %p")
}

/// `MM-DD-YYYY HH:MM:SS`, as activity reports and friend lists show dates.
pub fn format_date(ts: &Timestamp) -> (s: String)
    ensures
        s@ == us_date_time_24h(ts.parts(), ts.shown_second()),
{
    proof {
        use_type_invariant(ts);
    }
    chrono_format(ts, "%m-%d-%Y %H:%M:%S")
}

/// `YYYY-MM-DD HH:MM:SS`, as chat headers and search results show dates.
pub fn format_date_time(ts: &Timestamp) -> (s: String)
    ensures
        s@ == iso_date_time(ts.parts(), ts.shown_second(), ' '),
{
    proof {
        use_type_invariant(ts);
    }
    chrono_format(ts, "%Y-%m-%d %H:%M:%S")
}

/// The text that a timestamp is sent to the server as: `YYYY-MM-DDTHH:MM:SS`.
pub fn serialize_naive_date_time(ts: &Timestamp) -> (s: String)
    ensures
        s@ == iso_date_time(ts.parts(), ts.shown_second(), 'T'),
{
    proof {
        use_type_invariant(ts);
    }
    chrono_format(ts, "%Y-%m-%dT%H:%M:%S")
}

#[verifier::external_type_specification]
#[verifier::external_body]
pub struct ExParseError(chrono::ParseError);

/// What `chrono::NaiveDateTime::parse_from_str` reads from a text with a
/// pattern: the parts of the timestamp, or nothing when the text does not fit.
pub uninterp spec fn parsed_timestamp(text: Seq<char>, pattern: Seq<char>) -> Option<(int, int, int, int, int, int, int)>;

/// Parses a timestamp with `chrono::NaiveDateTime::parse_from_str`. What it
/// accepts is named, not stated; the contract claims only that the result is
/// that name applied to the text and the pattern, and that a parsed value is
/// an existing date and time, which chrono's types guarantee.
#[verifier::external_body]
fn chrono_parse(text: &str, pattern: &str) -> (r: Result<Timestamp, chrono::ParseError>)
    ensures
        r is Ok <==> parsed_timestamp(text@, pattern@) is Some,
        r matches Ok(ts) ==> parsed_timestamp(text@, pattern@) == Some(ts.parts()),
{
    match chrono::NaiveDateTime::parse_from_str(text, pattern) {
        Ok(dt) => Ok(Timestamp {
            year: dt.year(),
            month: dt.month(),
            day: dt.day(),
            hour: dt.hour(),
            minute: dt.minute(),
            second: dt.second(),
            nanosecond: dt.nanosecond(),
        }),
        Err(e) => Err(e),
    }
}

/// A timestamp text that the server sent and that does not parse.
#[derive(Debug)]
pub struct DateParseError {
    pub cause: chrono::ParseError,
}

/// The pattern that the server writes timestamps in: `YYYY-MM-DDTHH:MM:SS`
/// with an optional fraction of a second.
pub open spec fn server_pattern() -> Seq<char> {
    "%Y-%m-%dT%H:%M:%S%.f"@
}

/// What a parse result becomes: the timestamp itself, or the library's
/// error holding chrono's cause.
pub fn timestamp_from_parse(parsed: Result<Timestamp, chrono::ParseError>) -> (r: Result<Timestamp, DateParseError>)
    ensures
        r is Ok <==> parsed is Ok,
        parsed matches Ok(ts) ==> r == Ok::<Timestamp, DateParseError>(ts),
        parsed matches Err(e) ==> r matches Err(err) && err.cause == e,
{
    match parsed {
        Ok(ts) => Ok(ts),
        Err(cause) => Err(DateParseError { cause }),
    }
}

/// Reads a timestamp as the server writes it.
pub fn deserialize_naive_date_time(text: &str) -> (r: Result<Timestamp, DateParseError>)
    ensures
        r is Ok <==> parsed_timestamp(text@, server_pattern()) is Some,
        r matches Ok(ts) ==> parsed_timestamp(text@, server_pattern()) == Some(ts.parts()),
{
    timestamp_from_parse(chrono_parse(text, "%Y-%m-%dT%H:%M:%S%.f"))
}

} // verus!
