//! The calendar collaborator: day-of-week computation and date validation,
//! delegated to the `chrono` crate. The codec itself owns no calendar
//! arithmetic.

use vstd::prelude::*;

verus! {

/// Whether year, month and day name a real date of the proleptic Gregorian
/// calendar, within the year range the calendar collaborator supports.
pub uninterp spec fn is_calendar_date(year: int, month: int, day: int) -> bool;

/// The day of the week of a real calendar date, Monday = 1 .. Sunday = 7.
pub uninterp spec fn weekday_of_date(year: int, month: int, day: int) -> int;

/// Relies on chrono::NaiveDate::from_ymd_opt, which returns Some exactly
/// for a real (proleptic-Gregorian, in-range) calendar date, and on
/// chrono::Datelike::weekday with chrono::Weekday::number_from_monday,
/// which give the date's day of the week as Monday = 1 .. Sunday = 7, a
/// function of the date alone.
#[verifier::external_body]
pub(crate) fn weekday_from_ymd(year: i32, month: u32, day: u32) -> (r: Option<u8>)
    ensures
        r is Some <==> is_calendar_date(year as int, month as int, day as int),
        r matches Some(w) ==> w as int == weekday_of_date(year as int, month as int, day as int)
            && 1 <= w <= 7,
        r is Some ==> 1 <= month <= 12 && 1 <= day <= 31,
{
    match chrono::NaiveDate::from_ymd_opt(year, month, day) {
        Some(date) => Some(chrono::Datelike::weekday(&date).number_from_monday() as u8),
        None => None,
    }
}

} // verus!
