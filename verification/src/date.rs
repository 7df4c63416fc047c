//! Normalisation of the portal's dates to ISO calendar dates. Parsing and
//! printing are the `chrono` crate's.

use std::fmt::Write;
use vstd::prelude::*;

verus! {

/// The pattern in which the portal writes a date: weekday, day, month, year.
pub const PORTAL_DATE: &'static str = "%a %d %b %Y";

/// The pattern of an ISO calendar date.
pub const ISO_DATE: &'static str = "%Y-%m-%d";

/// What `chrono` makes of `text`: the date that `NaiveDate::parse_from_str`
/// reads from it under the pattern `read_as`, printed by `NaiveDate::format`
/// under the pattern `print_as`. `None` when `text` does not parse as a date
/// under `read_as`, or the date does not print under `print_as`.
pub uninterp spec fn converted_date(
    text: Seq<char>,
    read_as: Seq<char>,
    print_as: Seq<char>,
) -> Option<Seq<char>>;

/// Calls `chrono::NaiveDate::parse_from_str` and prints the date it returns
/// with `NaiveDate::format`. The result depends on the three strings alone:
/// neither call reads a clock, a locale or a time zone.
#[verifier::external_body]
pub(crate) fn convert_date(text: &str, read_as: &str, print_as: &str) -> (r: Option<String>)
    ensures
        r.deep_view() == converted_date(text@, read_as@, print_as@),
{
    let date = chrono::NaiveDate::parse_from_str(text, read_as).ok()?;
    let mut out = String::new();
    write!(out, "{}", date.format(print_as)).ok()?;
    Some(out)
}

/// The ISO calendar date for a date as the portal writes it, if it is one.
pub open spec fn iso_date_of(text: Seq<char>) -> Option<Seq<char>> {
    converted_date(text, PORTAL_DATE@, ISO_DATE@)
}

/// Reads a date such as "Mon 03 Jun 2024" and returns it as an ISO calendar
/// date, "2024-06-03". A text that is no such date yields `None`.
pub fn parse_date(date_str: &str) -> (r: Option<String>)
    ensures
        r.deep_view() == iso_date_of(date_str@),
{
    convert_date(date_str, PORTAL_DATE, ISO_DATE)
}

} // verus!
