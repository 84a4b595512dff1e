//! Points in time as plain numbers, and the calls that produce them.

use chrono::{DateTime, Datelike, NaiveDateTime, Utc};
use vstd::prelude::*;

verus! {

/// A date and time without a time zone: the whole seconds since the
/// beginning of 1970, and the nanoseconds beyond them (a thousand
/// million or more within a leap second).
#[derive(Debug, Clone, Copy, PartialEq, Eq, Hash, Structural)]
pub struct Timestamp {
    pub seconds: i64,
    pub nanos: u32,
}

/// The date and time that a text denotes when it is read by a format of
/// the `strftime` kind; `None` where the text does not fit the format or
/// denotes no date and time.
pub uninterp spec fn datetime_of(text: Seq<char>, format: Seq<char>) -> Option<Timestamp>;

/// `NaiveDateTime::parse_from_str`: reads a date and time by a format.
/// The result depends on the text and the format alone.
#[verifier::external_body]
pub(crate) fn parse_datetime(text: &str, format: &str) -> (r: Option<Timestamp>)
    ensures
        r == datetime_of(text@, format@),
{
    NaiveDateTime::parse_from_str(text, format).ok().map(
        |t| Timestamp {
            seconds: t.and_utc().timestamp(),
            nanos: t.and_utc().timestamp_subsec_nanos(),
        },
    )
}

/// The instant that a text with a time zone denotes when it is read by
/// a format of the `strftime` kind, as date and time in UTC; `None`
/// where the text does not fit the format, names no time zone or
/// denotes no instant.
pub uninterp spec fn instant_of(text: Seq<char>, format: Seq<char>) -> Option<Timestamp>;

/// `DateTime::parse_from_str`: reads a date and time with a time zone by
/// a format. The result depends on the text and the format alone.
#[verifier::external_body]
pub(crate) fn parse_instant(text: &str, format: &str) -> (r: Option<Timestamp>)
    ensures
        r == instant_of(text@, format@),
{
    DateTime::parse_from_str(text, format).ok().map(
        |t| Timestamp { seconds: t.timestamp(), nanos: t.timestamp_subsec_nanos() },
    )
}

/// `Utc::now`: the date and time of the clock. Nothing is known of it.
#[verifier::external_body]
pub(crate) fn now() -> Timestamp {
    let t = Utc::now().naive_local();
    Timestamp { seconds: t.and_utc().timestamp(), nanos: t.and_utc().timestamp_subsec_nanos() }
}

/// `Utc::now`: the current year of the clock, in decimal digits. Nothing
/// is known of it.
#[verifier::external_body]
pub(crate) fn current_year() -> String {
    Utc::now().year().to_string()
}

} // verus!
