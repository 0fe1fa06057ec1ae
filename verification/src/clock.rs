//! Calendar facts about Unix times: the day a moment falls on, and its
//! year and month in UTC.

use vstd::prelude::*;

verus! {

/// Seconds in a day.
pub const DAY_SECS: i64 = 86_400;

/// The day, counted from the first of January 1970, on which a Unix time falls.
pub open spec fn day_index(secs: i64) -> int {
    secs as int / 86_400
}

/// Computes [`day_index`].
pub fn day_of(secs: i64) -> (d: i64)
    ensures
        d == day_index(secs),
{
    if secs >= 0 {
        secs / DAY_SECS
    } else {
        let back: i64 = (-(secs + 1)) / DAY_SECS;
        assert((secs as int) / 86_400 == -(back as int) - 1) by (nonlinear_arith)
            requires
                secs < 0,
                back == (-(secs + 1)) / 86_400,
        ;
        -back - 1
    }
}

/// Names the year and the month (1 to 12) that `chrono` gives for a Unix
/// time in UTC, or `None` where the time lies outside the years it can
/// represent.
pub uninterp spec fn utc_year_month(secs: i64) -> Option<(i32, u32)>;

/// Calls `chrono::DateTime::from_timestamp` and reads the year and the month
/// of the date it gives; the contract only names the result.
#[verifier::external_body]
pub(crate) fn year_month(secs: i64) -> (r: Option<(i32, u32)>)
    ensures
        r == utc_year_month(secs),
{
    match chrono::DateTime::from_timestamp(secs, 0) {
        Some(d) => Some((chrono::Datelike::year(&d), chrono::Datelike::month(&d))),
        None => None,
    }
}

/// Names the text that `chrono` writes for a Unix time in UTC under a
/// format pattern, or `None` where the time lies outside the years that it
/// can represent.
pub uninterp spec fn utc_stamp(secs: i64, pattern: Seq<char>) -> Option<Seq<char>>;

/// Calls `chrono::DateTime::from_timestamp` and `format` with one of the
/// patterns of year, month, day, hour and minute; the contract only names
/// the result.
#[verifier::external_body]
pub(crate) fn stamp_of(secs: i64, pattern: &str) -> (r: Option<String>)
    requires
        pattern@ == "%Y%m%d%H%M"@ || pattern@ == "%Y%m%d%H"@ || pattern@ == "%Y%m%d"@,
    ensures
        match r {
            Some(t) => utc_stamp(secs, pattern@) == Some(t@),
            None => utc_stamp(secs, pattern@) is None,
        },
{
    match chrono::DateTime::from_timestamp(secs, 0) {
        Some(d) => Some(d.format(pattern).to_string()),
        None => None,
    }
}

/// The stamp of a Unix time under a pattern: the text that the calendar
/// gives, and the empty text for a time that it cannot represent.
pub open spec fn stamp_text(secs: i64, pattern: Seq<char>) -> Seq<char> {
    match utc_stamp(secs, pattern) {
        Some(t) => t,
        None => Seq::empty(),
    }
}

/// The text of a stamp that the calendar gave, or the empty text.
pub fn stamp_or_empty(stamp: Option<String>) -> (r: String)
    ensures
        r@ == match stamp {
            Some(t) => t@,
            None => Seq::<char>::empty(),
        },
{
    match stamp {
        Some(t) => t,
        None => String::new(),
    }
}

/// Whether two Unix times fall in different months of the UTC calendar.
pub open spec fn month_differs(a: i64, b: i64) -> bool {
    utc_year_month(a) != utc_year_month(b)
}

/// Whether two months of the calendar, each given by year and month or
/// not at all, are not the same.
pub fn months_differ(x: Option<(i32, u32)>, y: Option<(i32, u32)>) -> (r: bool)
    ensures
        r == (x != y),
{
    match (x, y) {
        (Some(p), Some(q)) => p.0 != q.0 || p.1 != q.1,
        (None, None) => false,
        _ => true,
    }
}

/// Computes [`month_differs`].
pub fn in_other_month(a: i64, b: i64) -> (r: bool)
    ensures
        r == month_differs(a, b),
{
    months_differ(year_month(a), year_month(b))
}

} // verus!
