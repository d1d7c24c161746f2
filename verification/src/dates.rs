//! Calendar dates, which this crate takes from `chrono`.

use vstd::prelude::*;
use chrono::{NaiveDate, NaiveDateTime};

verus! {

/// `chrono::NaiveDateTime`, a calendar date with a time of day and no time
/// zone. Nothing is claimed of it: the date of an invoice is taken in, kept
/// and handed out as it is.
#[verifier::external_type_specification]
#[verifier::external_body]
pub struct ExNaiveDateTime(chrono::NaiveDateTime);

/// How the date of an invoice is written: year, month and day, as in
/// `2024-01-31`.
pub const DATE_FORMAT: &'static str = "%Y-%m-%d";

/// What `chrono::NaiveDate::parse_from_str` reads from `text` under
/// `format`, taken at midnight, or `None` where it reports an error.
pub uninterp spec fn parsed_date(text: Seq<char>, format: Seq<char>) -> Option<NaiveDateTime>;

/// Calls `chrono::NaiveDate::parse_from_str` and takes the day that it
/// gives at midnight. The contract only gives the result its name: the
/// same text under the same format is always read the same way.
#[verifier::external_body]
pub(crate) fn parse_date(text: &str, format: &str) -> (r: Option<NaiveDateTime>)
    ensures
        r == parsed_date(text@, format@),
{
    match NaiveDate::parse_from_str(text, format) {
        Ok(day) => Some(NaiveDateTime::from(day)),
        Err(_) => None,
    }
}

} // verus!
