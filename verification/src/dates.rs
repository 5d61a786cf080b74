//! Date parsing with an ordered two-format fallback: first as a UTC
//! date-time rendered with millisecond precision, then as a bare calendar
//! date rendered as year-month-day.

use vstd::prelude::*;
use chrono::TimeZone;

verus! {

/// The result of parsing `value` against `pattern` as a UTC date-time and
/// rendering it with millisecond precision and a `Z` designator, or `None`
/// where the parse fails. Names what `chrono::Utc.datetime_from_str`
/// followed by `DateTime::to_rfc3339_opts(SecondsFormat::Millis, true)`
/// computes; the result depends on the two strings alone.
pub uninterp spec fn utc_datetime_of(pattern: Seq<char>, value: Seq<char>) -> Option<Seq<char>>;

/// The result of parsing `value` against `pattern` as a calendar date with
/// no time component and rendering it zero-padded as year-month-day, or
/// `None` where the parse fails. Names what `chrono::NaiveDate::parse_from_str`
/// followed by formatting with `"%Y-%m-%d"` computes; the result depends on
/// the two strings alone.
pub uninterp spec fn calendar_date_of(pattern: Seq<char>, value: Seq<char>) -> Option<Seq<char>>;

/// The string ends in a dot, exactly three decimal digits, and `Z`: the
/// shape of a timestamp carrying millisecond precision and a UTC designator.
pub open spec fn millis_utc_shape(s: Seq<char>) -> bool {
    &&& s.len() >= 5
    &&& s[s.len() - 5] == '.'
    &&& forall|i: int|
        s.len() - 4 <= i < s.len() - 1 ==> ('0' as u32) <= (#[trigger] s[i]) as u32 <= ('9' as u32)
    &&& s[s.len() - 1] == 'Z'
}

/// The string ends in dash, two characters, dash, two characters: the shape
/// of a zero-padded year-month-day date.
pub open spec fn year_month_day_shape(s: Seq<char>) -> bool {
    &&& s.len() >= 10
    &&& s[s.len() - 6] == '-'
    &&& s[s.len() - 3] == '-'
}

/// Relies on chrono's `Utc.datetime_from_str`, which parses `value` against
/// `pattern` as a date-time with a zero or absent offset, and on
/// `DateTime::to_rfc3339_opts(SecondsFormat::Millis, true)`, which its
/// documentation says renders with fixed three subsecond digits and, for a
/// zero offset, a trailing `Z`.
#[verifier::external_body]
#[allow(deprecated)]
fn parse_utc_datetime(pattern: &str, value: &str) -> (r: Option<String>)
    ensures
        r.deep_view() == utc_datetime_of(pattern@, value@),
        r matches Some(s) ==> millis_utc_shape(s@),
{
    match chrono::Utc.datetime_from_str(value, pattern) {
        Ok(t) => Some(t.to_rfc3339_opts(chrono::SecondsFormat::Millis, true)),
        Err(_) => None,
    }
}

/// Relies on chrono's `NaiveDate::parse_from_str`, which parses `value`
/// against `pattern` as a calendar date, and on formatting with `"%Y-%m-%d"`,
/// which its documentation says renders the year zero-padded to at least
/// four digits and the month and day zero-padded to two.
#[verifier::external_body]
fn parse_calendar_date(pattern: &str, value: &str) -> (r: Option<String>)
    ensures
        r.deep_view() == calendar_date_of(pattern@, value@),
        r matches Some(s) ==> year_month_day_shape(s@),
{
    match chrono::NaiveDate::parse_from_str(value, pattern) {
        Ok(d) => Some(d.format("%Y-%m-%d").to_string()),
        Err(_) => None,
    }
}

/// What `date_parse` returns: the date-time interpretation where it
/// succeeds, the calendar-date interpretation where only that one does,
/// and absence where both fail. The order of the fallback is part of the
/// contract: the date-time interpretation always wins.
pub open spec fn spec_date_parse(pattern: Seq<char>, value: Seq<char>) -> Option<Seq<char>> {
    if utc_datetime_of(pattern, value) is Some {
        utc_datetime_of(pattern, value)
    } else {
        calendar_date_of(pattern, value)
    }
}

/// Parse `value` against `pattern`, first as a UTC date-time rendered with
/// millisecond precision and a `Z` designator, then as a calendar date
/// rendered as year-month-day; `None` where both interpretations fail.
pub fn date_parse(pattern: &str, value: &str) -> (r: Option<String>)
    ensures
        r.deep_view() == spec_date_parse(pattern@, value@),
        utc_datetime_of(pattern@, value@) is None && calendar_date_of(pattern@, value@) is None
            <==> r is None,
        utc_datetime_of(pattern@, value@) is Some
            ==> (r matches Some(s) ==> millis_utc_shape(s@)),
        utc_datetime_of(pattern@, value@) is None
            ==> (r matches Some(s) ==> year_month_day_shape(s@)),
{
    match parse_utc_datetime(pattern, value) {
        Some(s) => Some(s),
        None => parse_calendar_date(pattern, value),
    }
}

} // verus!
