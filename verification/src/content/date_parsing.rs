//! Dates in front matter, read in several common formats.
use vstd::prelude::*;
use chrono::{Datelike, NaiveDate};

verus! {

/// The calendar date, as (year, month, day), that chrono's
/// `NaiveDate::parse_from_str` reads from `input` with `format`; `None`
/// where it reports an error.
pub uninterp spec fn chrono_parse_date(input: Seq<char>, format: Seq<char>) -> Option<(i32, u32, u32)>;

/// Reads a date from `input` with a chrono format string
/// (`NaiveDate::parse_from_str`).
///
/// Claimed of chrono: the result is its named answer for these two strings,
/// and a date it returns is a valid `NaiveDate`, so its month lies in
/// `1..=12` and its day in `1..=31`. Which strings each format accepts is left
/// to chrono.
#[verifier::external_body]
fn parse_with_format(input: &str, format: &str) -> (r: Option<(i32, u32, u32)>)
    ensures
        r == chrono_parse_date(input@, format@),
        r matches Some(t) ==> 1 <= t.1 <= 12 && 1 <= t.2 <= 31,
{
    NaiveDate::parse_from_str(input, format).ok().map(|d| (d.year(), d.month(), d.day()))
}

/// A calendar date.
#[derive(Debug, Clone, Copy, PartialEq, Eq)]
pub struct DateValue {
    pub year: i32,
    pub month: u32,
    pub day: u32,
}

impl DateValue {
    pub open spec fn as_tuple(self) -> (i32, u32, u32) {
        (self.year, self.month, self.day)
    }

    pub fn year(&self) -> (r: i32)
        ensures
            r == self.year,
    {
        self.year
    }

    pub fn month(&self) -> (r: u32)
        ensures
            r == self.month,
    {
        self.month
    }

    pub fn day(&self) -> (r: u32)
        ensures
            r == self.day,
    {
        self.day
    }
}

/// The formats tried, in order: ISO (`2024-01-15`), long month
/// (`January 15, 2024`), short month (`Jan 15, 2024`), day first
/// (`15/01/2024`), month first (`01/15/2024`).
pub open spec fn date_format(i: int) -> Seq<char> {
    if i == 0 {
        "%Y-%m-%d"@
    } else if i == 1 {
        "%B %d, %Y"@
    } else if i == 2 {
        "%b %d, %Y"@
    } else if i == 3 {
        "%d/%m/%Y"@
    } else {
        "%m/%d/%Y"@
    }
}

/// The number of formats tried.
pub open spec fn date_format_count() -> int {
    5
}

/// The first answer that one of the formats from `i` on gives for `input`.
pub open spec fn parse_date_from(input: Seq<char>, i: int) -> Option<(i32, u32, u32)>
    decreases date_format_count() - i,
{
    if i < 0 || i >= date_format_count() {
        None
    } else {
        match chrono_parse_date(input, date_format(i)) {
            Some(t) => Some(t),
            None => parse_date_from(input, i + 1),
        }
    }
}

/// The date that `parse_date` reads from `s`: the trimmed text read with the
/// first format that accepts it.
pub open spec fn spec_parse_date(s: Seq<char>) -> Option<(i32, u32, u32)> {
    parse_date_from(crate::text::trim(s), 0)
}

/// Parses a date string in multiple common formats, after trimming
/// surrounding whitespace; the first format that accepts it wins.
pub fn parse_date(date_str: &str) -> (r: Option<DateValue>)
    ensures
        r is Some <==> spec_parse_date(date_str@) is Some,
        r matches Some(d) ==> spec_parse_date(date_str@) == Some(d.as_tuple()),
        r matches Some(d) ==> 1 <= d.month <= 12 && 1 <= d.day <= 31,
{
    let cs = crate::text::chars_of(date_str);
    let trimmed_chars = crate::text::trim_chars(cs.as_slice());
    let trimmed = crate::text::string_of(trimmed_chars.as_slice());
    let input = trimmed.as_str();
    let ghost t = crate::text::trim(date_str@);
    assert(input@ == t);
    let mut found = parse_with_format(input, "%Y-%m-%d");
    if found.is_none() {
        found = parse_with_format(input, "%B %d, %Y");
        if found.is_none() {
            found = parse_with_format(input, "%b %d, %Y");
            if found.is_none() {
                found = parse_with_format(input, "%d/%m/%Y");
                if found.is_none() {
                    found = parse_with_format(input, "%m/%d/%Y");
                }
            }
        }
    }
    proof {
        reveal_with_fuel(parse_date_from, 6);
    }
    match found {
        Some((y, m, d)) => Some(DateValue { year: y, month: m, day: d }),
        None => None,
    }
}

} // verus!
