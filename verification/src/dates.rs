//! Calendar dates as plain values.
//!
//! A provider record carries its release date as text in year-month-day form.
//! Parsing and calendar validation are chrono's; this module holds the parsed
//! date as plain fields and owns the fixed serialization the document store
//! receives: four-digit year, two-digit month, two-digit day.

use crate::text::digit_char;
use crate::text::push_four_digits;
use crate::text::push_two_digits;
use vstd::prelude::*;
use vstd::string::StringExecFns;

verus! {

#[derive(Debug, Clone, Copy, PartialEq, Eq, Structural)]
pub struct CalDate {
    pub year: u32,
    pub month: u32,
    pub day: u32,
}

/// A date the fixed serialization can carry: a four-digit year and valid
/// month and day ranges.
pub open spec fn date_wf(d: CalDate) -> bool {
    d.year <= 9999 && 1 <= d.month <= 12 && 1 <= d.day <= 31
}

/// The year, month and day that chrono parses out of `s` in `%F`
/// (year-month-day) form, or nothing when `s` is not such a date.
pub uninterp spec fn date_parts_of(s: Seq<char>) -> Option<(i32, u32, u32)>;

/// Relies on chrono's `NaiveDate::parse_from_str` with the `%F` format and on
/// its `Datelike` accessors: the parse accepts only valid calendar dates, and
/// `month` and `day` are documented to lie in 1..=12 and 1..=31.
#[verifier::external_body]
fn parse_date_ymd(s: &str) -> (r: Option<(i32, u32, u32)>)
    ensures
        r == date_parts_of(s@),
        r matches Some(p) ==> 1 <= p.1 <= 12 && 1 <= p.2 <= 31,
{
    match chrono::NaiveDate::parse_from_str(s, "%F") {
        Ok(d) => Some(
            (chrono::Datelike::year(&d), chrono::Datelike::month(&d), chrono::Datelike::day(&d)),
        ),
        Err(_) => None,
    }
}

/// The release date a record carries for input `s`: the parsed date when it
/// has a four-digit year, nothing otherwise.
pub open spec fn release_date_of(s: Seq<char>) -> Option<CalDate> {
    match date_parts_of(s) {
        Some(p) => if 0 <= p.0 <= 9999 {
            Some(CalDate { year: p.0 as u32, month: p.1, day: p.2 })
        } else {
            None
        },
        None => None,
    }
}

pub fn parse_release_date(s: &str) -> (r: Option<CalDate>)
    ensures
        r == release_date_of(s@),
        r matches Some(d) ==> date_wf(d),
{
    match parse_date_ymd(s) {
        Some((y, m, d)) => {
            if 0 <= y && y <= 9999 {
                Some(CalDate { year: y as u32, month: m, day: d })
            } else {
                None
            }
        },
        None => None,
    }
}

/// The fixed serialization: `YYYY-MM-DD`, each part zero padded.
pub open spec fn date_text(d: CalDate) -> Seq<char> {
    seq![
        digit_char(d.year as int / 1000),
        digit_char((d.year as int / 100) % 10),
        digit_char((d.year as int / 10) % 10),
        digit_char(d.year as int % 10),
        '-',
        digit_char(d.month as int / 10),
        digit_char(d.month as int % 10),
        '-',
        digit_char(d.day as int / 10),
        digit_char(d.day as int % 10),
    ]
}

pub fn format_date(d: &CalDate) -> (r: String)
    requires
        date_wf(*d),
    ensures
        r@ == date_text(*d),
{
    let mut r = String::new();
    push_four_digits(&mut r, d.year);
    r.append("-");
    push_two_digits(&mut r, d.month);
    r.append("-");
    push_two_digits(&mut r, d.day);
    proof {
        reveal_strlit("-");
        assert(r@ =~= date_text(*d));
    }
    r
}

} // verus!
