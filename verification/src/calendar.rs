//! Date and time text parsing and calendar months, computed by chrono.

use vstd::prelude::*;
use chrono::Datelike;
use crate::datetime::{DateTimeUtc, SECONDS_PER_DAY, TIMESTAMP_LIMIT};

verus! {

/// Seconds since the epoch of the instant that chrono reads from an RFC 3339
/// text (such as `2023-01-01T00:00:00Z`), or `None` when chrono refuses the text.
pub uninterp spec fn chrono_rfc3339_timestamp(text: Seq<char>) -> Option<i64>;

/// Seconds since the epoch of the date and time (taken as UTC) that chrono
/// reads from `text` in the format `format`, or `None` when chrono refuses it.
pub uninterp spec fn chrono_naive_datetime_timestamp(text: Seq<char>, format: Seq<char>) -> Option<
    i64,
>;

/// Days since 1970-01-01 of the date that chrono reads from `text` in the
/// format `format`, or `None` when chrono refuses it.
pub uninterp spec fn chrono_naive_date_epoch_days(text: Seq<char>, format: Seq<char>) -> Option<
    i32,
>;

/// Year and month (1 to 12) of the date `day` days after 1970-01-01, or `None`
/// when the date lies outside chrono's range.
pub uninterp spec fn chrono_year_month(day: i32) -> Option<(i32, u32)>;

/// The message of the error (its `Display` text) that chrono's
/// `DateTime::parse_from_rfc3339` gives for a text it refuses.
pub uninterp spec fn chrono_rfc3339_error(text: Seq<char>) -> Seq<char>;

/// Reads an RFC 3339 date and time with chrono's `DateTime::parse_from_rfc3339`
/// and gives its seconds since the epoch (`DateTime::timestamp`), or the text
/// of chrono's parse error.
/// Trusted: the result is `chrono_rfc3339_timestamp` of the text, and the
/// error's text is `chrono_rfc3339_error` of it.
#[verifier::external_body]
pub(crate) fn parse_rfc3339_timestamp(text: &str) -> (r: Result<i64, String>)
    ensures
        r is Ok <==> chrono_rfc3339_timestamp(text@) is Some,
        r matches Ok(t) ==> chrono_rfc3339_timestamp(text@) == Some(t),
        r matches Err(m) ==> m@ == chrono_rfc3339_error(text@),
{
    match chrono::DateTime::parse_from_rfc3339(text) {
        Ok(t) => Ok(t.timestamp()),
        Err(e) => Err(e.to_string()),
    }
}

/// Reads a date and time with chrono's `NaiveDateTime::parse_from_str` and
/// gives its seconds since the epoch as UTC (`NaiveDateTime::and_utc`,
/// `DateTime::timestamp`).
/// Trusted: the result is `chrono_naive_datetime_timestamp` of the text and format.
#[verifier::external_body]
pub(crate) fn parse_naive_datetime_timestamp(text: &str, format: &str) -> (r: Option<i64>)
    ensures
        r == chrono_naive_datetime_timestamp(text@, format@),
{
    match chrono::NaiveDateTime::parse_from_str(text, format) {
        Ok(t) => Some(t.and_utc().timestamp()),
        Err(_) => None,
    }
}

/// Reads a date with chrono's `NaiveDate::parse_from_str` and gives its days
/// since 1970-01-01 (`NaiveDate::to_epoch_days`).
/// Trusted: the result is `chrono_naive_date_epoch_days` of the text and format.
#[verifier::external_body]
pub(crate) fn parse_naive_date_epoch_days(text: &str, format: &str) -> (r: Option<i32>)
    ensures
        r == chrono_naive_date_epoch_days(text@, format@),
{
    match chrono::NaiveDate::parse_from_str(text, format) {
        Ok(d) => Some(d.to_epoch_days()),
        Err(_) => None,
    }
}

/// Year and month of a calendar day, by chrono's `NaiveDate::from_epoch_days`,
/// `Datelike::year` and `Datelike::month`.
/// Trusted: the result is `chrono_year_month` of the day; a month lies in
/// 1..=12 as chrono documents for `Datelike::month`; and the day lies within
/// that month of the proleptic Gregorian calendar, in which chrono counts
/// `from_epoch_days` (day 0 being 1970-01-01).
#[verifier::external_body]
pub(crate) fn year_month_of_epoch_day(day: i32) -> (r: Option<(i32, u32)>)
    ensures
        r == chrono_year_month(day),
        r matches Some((_, m)) ==> 1 <= m <= 12,
        r matches Some((y, m)) ==> in_month(day as int, 12 * y + m - 1),
{
    match chrono::NaiveDate::from_epoch_days(day) {
        Some(d) => Some((d.year(), d.month())),
        None => None,
    }
}

/// The format of a date and time such as `2023-01-01 00:00:00`.
pub open spec fn datetime_format() -> Seq<char> {
    "%Y-%m-%d %H:%M:%S"@
}

/// The format of a date such as `2023-01-01`.
pub open spec fn date_format() -> Seq<char> {
    "%Y-%m-%d"@
}

/// The instant that `text` names, read first as a date and time
/// (`2023-01-01 00:00:00`), else as a date (`2023-01-01`, at midnight), both UTC.
pub open spec fn parsed_utc_secs(text: Seq<char>) -> Option<int> {
    match chrono_naive_datetime_timestamp(text, datetime_format()) {
        Some(t) => Some(t as int),
        None => match chrono_naive_date_epoch_days(text, date_format()) {
            Some(d) => Some(d * SECONDS_PER_DAY),
            None => None,
        },
    }
}

/// Reads an instant from `2023-01-01 00:00:00` or `2023-01-01` (midnight), in UTC.
/// `None` when the text has neither form or the instant is out of range.
pub fn parse_datetime_utc(text: &str) -> (r: Option<DateTimeUtc>)
    ensures
        r is Some <==> (parsed_utc_secs(text@) matches Some(t) && -TIMESTAMP_LIMIT <= t
            <= TIMESTAMP_LIMIT),
        r matches Some(d) ==> parsed_utc_secs(text@) == Some(d.secs()),
{
    match parse_naive_datetime_timestamp(text, "%Y-%m-%d %H:%M:%S") {
        Some(t) => DateTimeUtc::from_timestamp(t),
        None => match parse_naive_date_epoch_days(text, "%Y-%m-%d") {
            Some(d) => DateTimeUtc::from_timestamp((d as i64) * SECONDS_PER_DAY),
            None => None,
        },
    }
}

/// Days from the first of March to the first of the `mp`-th month after it
/// (0 for March, 31 for April, ..., 337 for February).
pub open spec fn days_from_march(mp: int) -> int {
    if mp <= 0 {
        0
    } else if mp == 1 {
        31
    } else if mp == 2 {
        61
    } else if mp == 3 {
        92
    } else if mp == 4 {
        122
    } else if mp == 5 {
        153
    } else if mp == 6 {
        184
    } else if mp == 7 {
        214
    } else if mp == 8 {
        245
    } else if mp == 9 {
        275
    } else if mp == 10 {
        306
    } else {
        337
    }
}

/// Days from 0000-03-01 to the first of March of year `y` (Gregorian leap years).
pub open spec fn days_to_march(y: int) -> int {
    365 * y + y / 4 - y / 100 + y / 400
}

/// The calendar day (days since 1970-01-01) on which month `k` begins, months
/// being counted as `12 * year + month - 1` (so January 1970 is `12 * 1970`).
pub open spec fn month_start(k: int) -> int {
    let j = k - 2;
    days_to_march(j / 12) + days_from_march(j % 12) - 719468
}

/// Whether calendar day `d` lies in month `k`: on or after its first day and
/// before the first day of the next month.
pub open spec fn in_month(d: int, k: int) -> bool {
    month_start(k) <= d < month_start(k + 1)
}

/// A month begins after the month before it.
pub proof fn lemma_month_start_step(k: int)
    ensures
        month_start(k) < month_start(k + 1),
{
    let j = k - 2;
    let y = j / 12;
    let mp = j % 12;
    assert(j == 12 * y + mp && 0 <= mp < 12);
    if mp < 11 {
        assert((j + 1) / 12 == y && (j + 1) % 12 == mp + 1);
    } else {
        assert((j + 1) / 12 == y + 1 && (j + 1) % 12 == 0);
        assert((y + 1) / 4 >= y / 4);
        assert((y + 1) / 100 <= y / 100 + 1);
        assert((y + 1) / 400 >= y / 400);
    }
}

/// Months begin in their order: a later month begins on a later day.
pub proof fn lemma_month_start_increasing(a: int, b: int)
    requires
        a < b,
    ensures
        month_start(a) < month_start(b),
    decreases b - a,
{
    lemma_month_start_step(b - 1);
    if a < b - 1 {
        lemma_month_start_increasing(a, b - 1);
    }
}

/// A day lies in one month only.
pub proof fn lemma_in_one_month(d: int, a: int, b: int)
    requires
        in_month(d, a),
        in_month(d, b),
    ensures
        a == b,
{
    if a < b {
        lemma_month_start_increasing(a, b);
        if a + 1 < b {
            lemma_month_start_increasing(a + 1, b);
        }
    } else if b < a {
        lemma_month_start_increasing(b, a);
        if b + 1 < a {
            lemma_month_start_increasing(b + 1, a);
        }
    }
}

/// Months follow days: a later day lies in the same month or a later one, and
/// the next day in the same month or the next one.
pub proof fn lemma_month_follows_day(d1: int, d2: int, a: int, b: int)
    requires
        d1 <= d2,
        in_month(d1, a),
        in_month(d2, b),
    ensures
        a <= b,
        d2 == d1 + 1 ==> b <= a + 1,
{
    if b < a {
        lemma_month_start_increasing(b + 1, a + 1);
        if b + 1 < a {
            lemma_month_start_increasing(b + 1, a);
        }
    }
    if d2 == d1 + 1 && b > a + 1 {
        lemma_month_start_increasing(a + 1, b);
    }
}

} // verus!
