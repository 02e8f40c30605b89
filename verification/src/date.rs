//! The session's calendar date: the value that names the artifact and heads
//! its first line.

use vstd::prelude::*;
use crate::text::{four_digits, two_digits, push_four_digits, push_two_digits};

verus! {

/// A calendar date as the session uses it: plain year, month and day fields.
///
/// The library does no calendar arithmetic; a date only names the artifact
/// and appears in its header, so the invariant asks no more than what those
/// renderings need.
#[derive(Clone, Copy, PartialEq, Eq, Structural, Debug)]
pub struct Date {
    pub year: u16,
    pub month: u8,
    pub day: u8,
}

impl Date {
    /// A date the library accepts: four-digit year, calendar-shaped month
    /// and day.
    pub open spec fn wf(self) -> bool {
        self.year <= 9999 && 1 <= self.month <= 12 && 1 <= self.day <= 31
    }
}

/// `YYYY-MM-DD`, the form used in the artifact's header.
pub open spec fn date_text(d: Date) -> Seq<char> {
    four_digits(d.year as int) + seq!['-'] + two_digits(d.month as int) + seq!['-'] + two_digits(
        d.day as int,
    )
}

/// `YYYY_MM_DD.md`, the artifact's file name. One session per calendar day
/// maps to one name; a same-day rerun reuses it.
pub open spec fn artifact_name_text(d: Date) -> Seq<char> {
    four_digits(d.year as int) + seq!['_'] + two_digits(d.month as int) + seq!['_'] + two_digits(
        d.day as int,
    ) + ".md"@
}

/// Builds a `Date` from plain parts, accepting exactly the values `Date::wf`
/// allows.
pub fn date_from_parts(year: i64, month: u64, day: u64) -> (r: Option<Date>)
    ensures
        match r {
            Some(d) => d.wf() && d.year == year && d.month == month && d.day == day,
            None => !(0 <= year <= 9999 && 1 <= month <= 12 && 1 <= day <= 31),
        },
        (0 <= year <= 9999 && 1 <= month <= 12 && 1 <= day <= 31) ==> r is Some,
{
    if 0 <= year && year <= 9999 && 1 <= month && month <= 12 && 1 <= day && day <= 31 {
        Some(Date { year: year as u16, month: month as u8, day: day as u8 })
    } else {
        None
    }
}

/// Relies on `chrono::Local::now` and `chrono::Datelike`: `year` is the
/// calendar year, `month` ranges over `1..=12` and `day` over `1..=31`.
/// The result depends on the clock, so nothing more is promised of it.
#[verifier::external_body]
fn local_date_parts() -> (r: (i64, u64, u64))
    ensures
        1 <= r.1 <= 12,
        1 <= r.2 <= 31,
{
    let now = chrono::Local::now();
    let y = chrono::Datelike::year(&now);
    let m = chrono::Datelike::month(&now);
    let d = chrono::Datelike::day(&now);
    (y as i64, m as u64, d as u64)
}

/// The local calendar date at the moment of the call, or `None` for a clock
/// year outside the four-digit range the artifact name can carry.
pub fn today() -> (r: Option<Date>)
    ensures
        r is Some ==> r.unwrap().wf(),
{
    let (y, m, d) = local_date_parts();
    date_from_parts(y, m, d)
}

/// Renders `YYYY-MM-DD` for the artifact's header.
pub fn date_string(d: &Date) -> (r: String)
    requires
        d.wf(),
    ensures
        r@ == date_text(*d),
{
    let mut out = String::new();
    push_four_digits(&mut out, d.year as u64);
    out.append("-");
    push_two_digits(&mut out, d.month as u64);
    out.append("-");
    push_two_digits(&mut out, d.day as u64);
    proof {
        reveal_strlit("-");
        assert(out@ =~= date_text(*d));
    }
    out
}

/// Renders `YYYY_MM_DD.md`, the artifact's file name.
pub fn artifact_name(d: &Date) -> (r: String)
    requires
        d.wf(),
    ensures
        r@ == artifact_name_text(*d),
{
    let mut out = String::new();
    push_four_digits(&mut out, d.year as u64);
    out.append("_");
    push_two_digits(&mut out, d.month as u64);
    out.append("_");
    push_two_digits(&mut out, d.day as u64);
    out.append(".md");
    proof {
        reveal_strlit("_");
        reveal_strlit(".md");
        assert(out@ =~= artifact_name_text(*d));
    }
    out
}

} // verus!
