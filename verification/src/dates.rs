use vstd::prelude::*;
use chrono::{Datelike, Timelike};

verus! {

/// A calendar date, held as plain field values: year, month (1-12) and
/// day (1-31) as the date library reported them.
#[derive(Debug, Clone, Copy, PartialEq, Eq, Structural)]
pub struct CalendarDate {
    pub year: i32,
    pub month: u32,
    pub day: u32,
}

/// An offset-aware timestamp, held as plain field values.  `offset_seconds`
/// is the local-time offset east of UTC, so the source's UTC offset is kept.
#[derive(Debug, Clone, Copy, PartialEq, Eq, Structural)]
pub struct Timestamp {
    pub year: i32,
    pub month: u32,
    pub day: u32,
    pub hour: u32,
    pub minute: u32,
    pub second: u32,
    pub nanosecond: u32,
    pub offset_seconds: i32,
}

/// The calendar date that a `%Y-%m-%d` text denotes, or `None` where the
/// text does not denote one.  The full calendar rules (month lengths, leap
/// years, signed and five-digit years) belong to the date library; only the
/// name is stated here.
pub uninterp spec fn iso_date_of(s: Seq<char>) -> Option<CalendarDate>;

/// The timestamp that an RFC 3339 text denotes, or `None` where the text
/// does not denote one.
pub uninterp spec fn rfc3339_of(s: Seq<char>) -> Option<Timestamp>;

/// Relies on `chrono::NaiveDate`'s `FromStr`, which parses the `%Y-%m-%d`
/// format, and on the `Datelike` accessors `year`, `month` and `day`.
/// The result is a function of the text alone.
#[verifier::external_body]
pub fn parse_iso_date(s: &str) -> (r: Option<CalendarDate>)
    ensures
        r == iso_date_of(s@),
{
    match s.parse::<chrono::NaiveDate>() {
        Ok(d) => Some(CalendarDate { year: d.year(), month: d.month(), day: d.day() }),
        Err(_) => None,
    }
}

/// Relies on `chrono::DateTime::parse_from_rfc3339` and on the `Datelike`,
/// `Timelike` and `FixedOffset::local_minus_utc` accessors.  The result is
/// a function of the text alone.
#[verifier::external_body]
pub fn parse_rfc3339(s: &str) -> (r: Option<Timestamp>)
    ensures
        r == rfc3339_of(s@),
{
    match chrono::DateTime::parse_from_rfc3339(s) {
        Ok(t) => Some(
            Timestamp {
                year: t.year(),
                month: t.month(),
                day: t.day(),
                hour: t.hour(),
                minute: t.minute(),
                second: t.second(),
                nanosecond: t.nanosecond(),
                offset_seconds: t.offset().local_minus_utc(),
            },
        ),
        Err(_) => None,
    }
}

} // verus!
