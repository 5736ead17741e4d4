//! Calendar dates and times: the plain values that the records carry, their
//! validity, day numbers, the `chrono` calls that parse and shift them, and the
//! texts that `chrono` writes for them.

use vstd::prelude::*;
use crate::text::{push_zero_padded, string_push, zero_padded};
use chrono::{Datelike, Timelike};

verus! {

/// A date of the proleptic Gregorian calendar.
#[derive(Clone, Copy, Debug, PartialEq, Eq, Structural)]
pub struct CivilDate {
    pub year: i32,
    pub month: u32,
    pub day: u32,
}

/// A date with a time of day, without time zone.
#[derive(Clone, Copy, Debug, PartialEq, Eq, Structural)]
pub struct CivilDateTime {
    pub date: CivilDate,
    pub hour: u32,
    pub minute: u32,
    pub second: u32,
    pub nanosecond: u32,
}

/// The first year that `chrono` dates can hold.
pub open spec fn min_year() -> int {
    -262143
}

/// The last year that `chrono` dates can hold.
pub open spec fn max_year() -> int {
    262142
}

pub open spec fn is_leap_year(y: int) -> bool {
    (y % 4 == 0 && y % 100 != 0) || y % 400 == 0
}

pub open spec fn days_in_month(y: int, m: int) -> int {
    if m == 2 {
        if is_leap_year(y) {
            29
        } else {
            28
        }
    } else if m == 4 || m == 6 || m == 9 || m == 11 {
        30
    } else {
        31
    }
}

/// `d` is a calendar date within the range of `chrono::NaiveDate`.
pub open spec fn valid_date(d: CivilDate) -> bool {
    &&& min_year() <= d.year <= max_year()
    &&& 1 <= d.month <= 12
    &&& 1 <= d.day <= days_in_month(d.year as int, d.month as int)
}

/// `t` is a value of `chrono::NaiveDateTime` (a leap second shows as a nanosecond count
/// of one second or more).
pub open spec fn valid_date_time(t: CivilDateTime) -> bool {
    &&& valid_date(t.date)
    &&& t.hour < 24
    &&& t.minute < 60
    &&& t.second < 60
    &&& t.nanosecond < 2_000_000_000
}

/// The number of days from 1970-01-01 to `d` (negative before it).
pub open spec fn day_number(d: CivilDate) -> int {
    let y = if d.month <= 2 {
        d.year - 1
    } else {
        d.year as int
    };
    let era = y / 400;
    let yoe = y - era * 400;
    let mp = if d.month > 2 {
        d.month - 3
    } else {
        d.month + 9
    };
    let doy = (153 * mp + 2) / 5 + d.day - 1;
    let doe = yoe * 365 + yoe / 4 - yoe / 100 + doy;
    era * 146097 + doe - 719468
}

/// The first day that `chrono::NaiveDate` can hold.
pub open spec fn first_day() -> int {
    day_number(CivilDate { year: min_year() as i32, month: 1, day: 1 })
}

/// The last day that `chrono::NaiveDate` can hold.
pub open spec fn last_day() -> int {
    day_number(CivilDate { year: max_year() as i32, month: 12, day: 31 })
}

/// What `chrono::NaiveDate::parse_from_str` returns for a text and a format, as a date.
pub uninterp spec fn chrono_date_parse(text: Seq<char>, format: Seq<char>) -> Option<CivilDate>;

/// What `chrono::NaiveDateTime::parse_from_str` returns for a text and a format.
pub uninterp spec fn chrono_date_time_parse(text: Seq<char>, format: Seq<char>) -> Option<
    CivilDateTime,
>;

/// What `chrono::DateTime::parse_from_rfc3339` returns for a text, taken to UTC and
/// without its offset (`naive_utc`).
pub uninterp spec fn chrono_rfc3339_utc(text: Seq<char>) -> Option<CivilDateTime>;

/// `chrono::NaiveDate::parse_from_str`, the error dropped. Its result is named by
/// `chrono_date_parse`; of a date that comes back the contract states only that it is one
/// that `chrono::NaiveDate` can hold.
#[verifier::external_body]
pub(crate) fn chrono_parse_date(text: &str, format: &str) -> (r: Option<CivilDate>)
    ensures
        r == chrono_date_parse(text@, format@),
        r matches Some(d) ==> valid_date(d),
{
    match chrono::NaiveDate::parse_from_str(text, format) {
        Ok(d) => Some(CivilDate { year: d.year(), month: d.month(), day: d.day() }),
        Err(_) => None,
    }
}

/// `chrono::NaiveDateTime::parse_from_str`, the error dropped. Its result is named by
/// `chrono_date_time_parse`; of a value that comes back the contract states only that it
/// is one that `chrono::NaiveDateTime` can hold.
#[verifier::external_body]
pub(crate) fn chrono_parse_date_time(text: &str, format: &str) -> (r: Option<CivilDateTime>)
    ensures
        r == chrono_date_time_parse(text@, format@),
        r matches Some(t) ==> valid_date_time(t),
{
    match chrono::NaiveDateTime::parse_from_str(text, format) {
        Ok(t) => Some(CivilDateTime {
            date: CivilDate { year: t.year(), month: t.month(), day: t.day() },
            hour: t.hour(),
            minute: t.minute(),
            second: t.second(),
            nanosecond: t.nanosecond(),
        }),
        Err(_) => None,
    }
}

/// `chrono::DateTime::parse_from_rfc3339`, the error dropped and the value taken to UTC
/// by `naive_utc`. Its result is named by `chrono_rfc3339_utc`; of a value that comes back
/// the contract states only that `chrono::NaiveDateTime` can hold it.
#[verifier::external_body]
pub(crate) fn chrono_parse_rfc3339_utc(text: &str) -> (r: Option<CivilDateTime>)
    ensures
        r == chrono_rfc3339_utc(text@),
        r matches Some(t) ==> valid_date_time(t),
{
    match chrono::DateTime::parse_from_rfc3339(text) {
        Ok(dt) => {
            let t = dt.naive_utc();
            Some(CivilDateTime {
                date: CivilDate { year: t.year(), month: t.month(), day: t.day() },
                hour: t.hour(),
                minute: t.minute(),
                second: t.second(),
                nanosecond: t.nanosecond(),
            })
        },
        Err(_) => None,
    }
}

/// `NaiveDate::checked_sub_signed` by `TimeDelta::days(days)`: the date `days` days
/// before `d`, or `None` where that day lies outside the range of `chrono::NaiveDate`.
#[verifier::external_body]
pub(crate) fn chrono_days_before(d: CivilDate, days: i64) -> (r: Option<CivilDate>)
    requires
        valid_date(d),
        -9223372036854775 <= days * 86400 <= 9223372036854775,
    ensures
        r matches Some(e) ==> valid_date(e) && day_number(e) == day_number(d) - days,
        r is None <==> !(first_day() <= day_number(d) - days <= last_day()),
{
    let start = chrono::NaiveDate::from_ymd_opt(d.year, d.month, d.day).unwrap();
    match start.checked_sub_signed(chrono::TimeDelta::days(days)) {
        Some(e) => Some(CivilDate { year: e.year(), month: e.month(), day: e.day() }),
        None => None,
    }
}

/// The year as `chrono` writes it for `%Y`: four digits from 0 to 9999, otherwise a sign
/// and at least four digits.
pub open spec fn year_text(y: int) -> Seq<char> {
    if 0 <= y <= 9999 {
        zero_padded(y as nat, 4)
    } else if y < 0 {
        seq!['-'] + zero_padded((-y) as nat, 4)
    } else {
        seq!['+'] + zero_padded(y as nat, 4)
    }
}

/// `d` as `chrono` writes it for `%Y-%m-%d` (and for `Display`).
pub open spec fn iso_date_text(d: CivilDate) -> Seq<char> {
    year_text(d.year as int) + seq!['-'] + zero_padded(d.month as nat, 2) + seq!['-']
        + zero_padded(d.day as nat, 2)
}

/// `d` as `chrono` writes it for `%d/%m/%Y`.
pub open spec fn br_date_text(d: CivilDate) -> Seq<char> {
    zero_padded(d.day as nat, 2) + seq!['/'] + zero_padded(d.month as nat, 2) + seq!['/']
        + year_text(d.year as int)
}

/// A time of day as `chrono` writes it for `%H:%M`.
pub open spec fn hour_minute_text(hour: nat, minute: nat) -> Seq<char> {
    zero_padded(hour, 2) + seq![':'] + zero_padded(minute, 2)
}

/// Appends the year as `chrono` writes it for `%Y`.
pub fn push_year(s: &mut String, y: i32)
    ensures
        final(s)@ == old(s)@ + year_text(y as int),
{
    if 0 <= y && y <= 9999 {
        push_zero_padded(s, y as u128, 4);
    } else if y < 0 {
        string_push(s, '-');
        let m: i64 = -(y as i64);
        push_zero_padded(s, m as u128, 4);
        assert(final(s)@ =~= old(s)@ + year_text(y as int));
    } else {
        string_push(s, '+');
        push_zero_padded(s, y as u128, 4);
        assert(final(s)@ =~= old(s)@ + year_text(y as int));
    }
}

/// `d` as `chrono` writes it for `%Y-%m-%d`.
pub fn iso_date(d: CivilDate) -> (r: String)
    ensures
        r@ == iso_date_text(d),
{
    let mut r = String::new();
    push_year(&mut r, d.year);
    string_push(&mut r, '-');
    push_zero_padded(&mut r, d.month as u128, 2);
    string_push(&mut r, '-');
    push_zero_padded(&mut r, d.day as u128, 2);
    assert(r@ =~= iso_date_text(d));
    r
}

/// `d` as `chrono` writes it for `%d/%m/%Y`.
pub fn br_date(d: CivilDate) -> (r: String)
    ensures
        r@ == br_date_text(d),
{
    let mut r = String::new();
    push_zero_padded(&mut r, d.day as u128, 2);
    string_push(&mut r, '/');
    push_zero_padded(&mut r, d.month as u128, 2);
    string_push(&mut r, '/');
    push_year(&mut r, d.year);
    assert(r@ =~= br_date_text(d));
    r
}

/// A time of day as `chrono` writes it for `%H:%M`.
pub fn hour_minute(hour: u32, minute: u32) -> (r: String)
    ensures
        r@ == hour_minute_text(hour as nat, minute as nat),
{
    let mut r = String::new();
    push_zero_padded(&mut r, hour as u128, 2);
    string_push(&mut r, ':');
    push_zero_padded(&mut r, minute as u128, 2);
    assert(r@ =~= hour_minute_text(hour as nat, minute as nat));
    r
}

/// The start of the Unix epoch, 1970-01-01 00:00:00 (`NaiveDateTime::UNIX_EPOCH`).
pub fn unix_epoch() -> (t: CivilDateTime)
    ensures
        t == (CivilDateTime {
            date: CivilDate { year: 1970, month: 1, day: 1 },
            hour: 0,
            minute: 0,
            second: 0,
            nanosecond: 0,
        }),
        valid_date_time(t),
        day_number(t.date) == 0,
{
    CivilDateTime {
        date: CivilDate { year: 1970, month: 1, day: 1 },
        hour: 0,
        minute: 0,
        second: 0,
        nanosecond: 0,
    }
}

} // verus!

verus! {

/// Every date that `chrono::NaiveDate` can hold lies between its first and last day.
pub proof fn lemma_valid_day_bounds(d: CivilDate)
    requires
        valid_date(d),
    ensures
        first_day() <= day_number(d) <= last_day(),
{
}

} // verus!
