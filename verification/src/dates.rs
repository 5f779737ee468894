//! Calendar dates and the clock.

use vstd::prelude::*;
use crate::error::Error;

verus! {

/// `time::error::Parse`: why a text is no date. It is carried from the parser
/// to its message, and nothing is known of what it holds.
#[verifier::external_type_specification]
#[verifier::external_body]
pub struct ExTimeParseError(time::error::Parse);

/// A calendar date.
#[derive(Debug, Clone, Copy, PartialEq, Eq, PartialOrd, Ord, Hash)]
pub struct Date {
    pub year: i32,
    pub month: u8,
    pub day: u8,
}

impl Date {
    /// The month is one of the twelve and the day one of at most 31.
    pub open spec fn wf(&self) -> bool {
        &&& 1 <= self.month <= 12
        &&& 1 <= self.day <= 31
    }
}

/// Year, month and day that the parser reads from a text in the form
/// `YYYY-MM-DD`, if it reads a date from it.
pub uninterp spec fn iso_date(text: Seq<char>) -> Option<(i32, u8, u8)>;

/// `time::Date::parse` with the format `%F`, and the date's `year`, `month`
/// and `day`: it succeeds exactly on the texts that `iso_date` accepts, with
/// those three numbers. The month that a `time::Date` gives is in `1..=12`
/// and the day in `1..=31`.
#[verifier::external_body]
pub(crate) fn parse_iso_date(text: &str) -> (parsed: Result<(i32, u8, u8), time::error::Parse>)
    ensures
        match parsed {
            Ok(ymd) => iso_date(text@) == Some(ymd) && 1 <= ymd.1 <= 12 && 1 <= ymd.2 <= 31,
            Err(_) => iso_date(text@).is_none(),
        },
{
    match time::Date::parse(text, "%F") {
        Ok(d) => Ok((d.year(), d.month(), d.day())),
        Err(e) => Err(e),
    }
}

/// `time::error::Parse`'s `Display`: the message of a parse failure. Nothing
/// is claimed of its wording.
#[verifier::external_body]
pub(crate) fn date_error_message(e: &time::error::Parse) -> (message: String) {
    e.to_string()
}

/// `time::OffsetDateTime::now_utc` as seconds since the Unix epoch. The value
/// depends on the clock, so nothing is claimed of it.
#[verifier::external_body]
pub(crate) fn unix_now() -> (seconds: i64) {
    time::OffsetDateTime::now_utc().unix_timestamp()
}

/// What reading a date gives, once the parser has answered.
pub fn date_from_parse(parsed: Result<(i32, u8, u8), time::error::Parse>) -> (out: Result<Date, Error>)
    ensures
        match parsed {
            Ok(ymd) => out == Ok::<Date, Error>(Date { year: ymd.0, month: ymd.1, day: ymd.2 }),
            Err(_) => out matches Err(Error::Validation(_)),
        },
{
    match parsed {
        Ok(ymd) => Ok(Date { year: ymd.0, month: ymd.1, day: ymd.2 }),
        Err(e) => Err(Error::Validation(date_error_message(&e))),
    }
}

/// Reads a date written as `YYYY-MM-DD`; a text that the parser refuses is a
/// validation error.
pub fn parse_date(text: &str) -> (out: Result<Date, Error>)
    ensures
        match iso_date(text@) {
            Some(ymd) => out == Ok::<Date, Error>(Date { year: ymd.0, month: ymd.1, day: ymd.2 }),
            None => out matches Err(Error::Validation(_)),
        },
        out matches Ok(date) ==> date.wf(),
{
    date_from_parse(parse_iso_date(text))
}

} // verus!
