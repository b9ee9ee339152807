//! The one look at the wall clock the pipeline takes.
//!
//! Each cycle reports on the day before its wake date, in UTC. What the
//! clock says cannot be pinned down, so the calls here state only what
//! holds of every reading; everything done with the reading afterwards is
//! ordinary verified date logic.

use vstd::prelude::*;
use chrono::Datelike;
use crate::date::ReportDate;

verus! {

/// Relies on `chrono::Utc::now` and `chrono::Datelike`: `date_naive` is the
/// current date in UTC, `month()` lies in 1..=12 and `day()` in 1..=31.
#[verifier::external_body]
fn utc_today_ymd() -> (r: (i64, i64, i64))
    ensures
        1 <= r.1 <= 12,
        1 <= r.2 <= 31,
{
    let d = chrono::Utc::now().date_naive();
    (d.year() as i64, d.month() as i64, d.day() as i64)
}

/// The current UTC date, when it lies in the supported year range.
pub fn today_utc() -> (r: Option<ReportDate>)
    ensures
        r matches Some(d) ==> d.valid(),
{
    let (y, m, d) = utc_today_ymd();
    ReportDate::from_ymd(y, m, d)
}

/// The date a cycle waking now reports on: the day before the current UTC
/// date.
pub fn yesterday_utc() -> (r: Option<ReportDate>)
    ensures
        r matches Some(d) ==> d.valid(),
{
    match today_utc() {
        Some(today) => today.prev(),
        None => None,
    }
}

} // verus!
