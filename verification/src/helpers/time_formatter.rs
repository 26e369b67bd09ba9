//! Dates as they are written in a query, read as seconds since the epoch.

use vstd::prelude::*;
use crate::errors::ValidationError;

verus! {

/// How a query writes a date: `YYYY-MM-DDTHH:MM:SS`, taken as UTC, with no offset.
pub const DATE_FORMAT: &'static str = "%Y-%m-%dT%H:%M:%S";

/// The seconds since the epoch of the date and time that `text` writes in
/// `format`, read as UTC; none where `text` does not follow `format` or names
/// no date and time. It stands for what chrono computes, and nothing is stated
/// of its values here.
pub uninterp spec fn utc_timestamp(text: Seq<char>, format: Seq<char>) -> Option<i64>;

/// Calls chrono's `NaiveDateTime::parse_from_str` on `text` and `format`, and on
/// success `and_utc` and `DateTime::timestamp` on what it gave. The contract
/// claims only that the outcome depends on the two texts alone: it is
/// [`utc_timestamp`] of them.
#[verifier::external_body]
fn parse_utc_timestamp(text: &str, format: &str) -> (seconds: Option<i64>)
    ensures
        seconds == utc_timestamp(text@, format@),
{
    match chrono::NaiveDateTime::parse_from_str(text, format) {
        Ok(datetime) => Some(datetime.and_utc().timestamp()),
        Err(_) => None,
    }
}

/// Calls chrono's `Utc::now` and `DateTime::timestamp`: the seconds since the
/// epoch on this machine's clock. Nothing is claimed of the value. chrono
/// panics where the clock stands before the epoch.
#[verifier::external_body]
pub(crate) fn current_timestamp() -> (seconds: i64)
{
    chrono::Utc::now().timestamp()
}

/// Reads a date written as [`DATE_FORMAT`] and gives its seconds since the
/// epoch, or `InvalidDateFormat` where chrono does not accept the text.
pub fn parse_date(date_str: &str) -> (outcome: Result<i64, ValidationError>)
    ensures
        outcome == match utc_timestamp(date_str@, DATE_FORMAT@) {
            Some(seconds) => Ok::<i64, ValidationError>(seconds),
            None => Err::<i64, ValidationError>(ValidationError::InvalidDateFormat),
        },
{
    match parse_utc_timestamp(date_str, DATE_FORMAT) {
        Some(seconds) => Ok(seconds),
        None => Err(ValidationError::InvalidDateFormat),
    }
}

} // verus!
