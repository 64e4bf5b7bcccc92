//! Business-day calendars.
//!
//! Holiday data and the business-day walk are `convex_core`'s; each
//! calendar here is one of its calendars, and the date reached by moving a
//! number of business days is named per calendar.

use vstd::prelude::*;

use convex_core::calendars::Calendar;

use crate::date::{ymd_lt, Date, MAX_YEAR};

verus! {

/// The date `n` SIFMA (US bond market) business days after `(y, m, d)`.
pub uninterp spec fn spec_sifma_business_days(y: int, m: int, d: int, n: int) -> (int, int, int);

/// The date `n` TARGET2 (euro payments) business days after `(y, m, d)`.
pub uninterp spec fn spec_target2_business_days(y: int, m: int, d: int, n: int) -> (int, int, int);

/// The date `n` UK business days after `(y, m, d)`.
pub uninterp spec fn spec_uk_business_days(y: int, m: int, d: int, n: int) -> (int, int, int);

/// The date `n` Japanese business days after `(y, m, d)`.
pub uninterp spec fn spec_japan_business_days(y: int, m: int, d: int, n: int) -> (int, int, int);

/// A forward business-day move of at most ten days from `date` stays within
/// the calendar's range (beyond the holiday tables only weekends are
/// skipped, so ten business days span well under a year).
pub open spec fn business_move_in_range(date: (int, int, int), days: int) -> bool {
    0 <= days <= 10 && date.0 < MAX_YEAR
}

/// Calls `convex_core::calendars::SIFMACalendar::add_business_days` (the
/// `Calendar` trait's walk: one calendar day at a time, counting business
/// days).  Claimed beyond the name: a positive move gives a later date and
/// a zero move the date itself.
#[verifier::external_body]
pub(crate) fn sifma_add_business_days(date: &Date, days: i32) -> (r: Date)
    requires
        business_move_in_range(date@, days as int),
    ensures
        r@ == spec_sifma_business_days(date@.0, date@.1, date@.2, days as int),
        days > 0 ==> ymd_lt(date@, r@),
        days == 0 ==> r@ == date@,
{
    let x = convex_core::Date::from_ymd(date.year, date.month, date.day).expect("a valid date");
    let y = convex_core::calendars::SIFMACalendar::new().add_business_days(x, days);
    Date { year: y.year(), month: y.month(), day: y.day() }
}

/// Calls `convex_core::calendars::Target2Calendar::add_business_days`; the
/// contract claims what the SIFMA one does.
#[verifier::external_body]
pub(crate) fn target2_add_business_days(date: &Date, days: i32) -> (r: Date)
    requires
        business_move_in_range(date@, days as int),
    ensures
        r@ == spec_target2_business_days(date@.0, date@.1, date@.2, days as int),
        days > 0 ==> ymd_lt(date@, r@),
        days == 0 ==> r@ == date@,
{
    let x = convex_core::Date::from_ymd(date.year, date.month, date.day).expect("a valid date");
    let y = convex_core::calendars::Target2Calendar::new().add_business_days(x, days);
    Date { year: y.year(), month: y.month(), day: y.day() }
}

/// Calls `convex_core::calendars::UKCalendar::add_business_days`; the
/// contract claims what the SIFMA one does.
#[verifier::external_body]
pub(crate) fn uk_add_business_days(date: &Date, days: i32) -> (r: Date)
    requires
        business_move_in_range(date@, days as int),
    ensures
        r@ == spec_uk_business_days(date@.0, date@.1, date@.2, days as int),
        days > 0 ==> ymd_lt(date@, r@),
        days == 0 ==> r@ == date@,
{
    let x = convex_core::Date::from_ymd(date.year, date.month, date.day).expect("a valid date");
    let y = convex_core::calendars::UKCalendar::new().add_business_days(x, days);
    Date { year: y.year(), month: y.month(), day: y.day() }
}

/// Calls `convex_core::calendars::JapanCalendar::add_business_days`; the
/// contract claims what the SIFMA one does.
#[verifier::external_body]
pub(crate) fn japan_add_business_days(date: &Date, days: i32) -> (r: Date)
    requires
        business_move_in_range(date@, days as int),
    ensures
        r@ == spec_japan_business_days(date@.0, date@.1, date@.2, days as int),
        days > 0 ==> ymd_lt(date@, r@),
        days == 0 ==> r@ == date@,
{
    let x = convex_core::Date::from_ymd(date.year, date.month, date.day).expect("a valid date");
    let y = convex_core::calendars::JapanCalendar::new().add_business_days(x, days);
    Date { year: y.year(), month: y.month(), day: y.day() }
}

} // verus!
