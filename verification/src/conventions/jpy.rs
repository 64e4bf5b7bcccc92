//! JPY market conventions.

use vstd::prelude::*;

use crate::basis::{DayCountConvention, Frequency};
use crate::calendars::{japan_add_business_days, spec_japan_business_days};
use crate::conventions::ConventionSummary;
use crate::date::{Date, MAX_YEAR};
use crate::error::CurveResult;
use crate::instruments::deposit::{deposit_tenor_result, parse_tenor};

verus! {

/// Spot settlement days (T+2).
pub const SPOT_DAYS: u32 = 2;

/// Deposit day count convention.
pub const DEPOSIT_DAY_COUNT: DayCountConvention = DayCountConvention::Act365Fixed;

/// Swap fixed leg frequency.
pub const SWAP_FIXED_FREQ: Frequency = Frequency::SemiAnnual;

/// Swap fixed leg day count.
pub const SWAP_FIXED_DAY_COUNT: DayCountConvention = DayCountConvention::Act365Fixed;

/// Swap float leg frequency.
pub const SWAP_FLOAT_FREQ: Frequency = Frequency::SemiAnnual;

/// The JPY convention summary, as a predicate.
pub open spec fn is_summary(s: ConventionSummary) -> bool {
    &&& s.currency@ == "JPY"@
    &&& s.spot_days == 2
    &&& s.deposit_day_count == DayCountConvention::Act365Fixed
    &&& s.swap_fixed_freq == Frequency::SemiAnnual
    &&& s.swap_fixed_day_count == DayCountConvention::Act365Fixed
    &&& s.swap_float_freq == Frequency::SemiAnnual
    &&& s.overnight_index@ == "TONAR"@
    &&& (s.ibor_index matches Some(i) && i@ == "TIBOR 6M"@)
    &&& s.calendar_name@ == "Japan"@
}

/// Market convention summary for JPY.
pub fn summary() -> (r: ConventionSummary)
    ensures
        is_summary(r),
        r.spot_days == SPOT_DAYS,
        r.deposit_day_count == DEPOSIT_DAY_COUNT,
        r.swap_fixed_freq == SWAP_FIXED_FREQ,
        r.swap_fixed_day_count == SWAP_FIXED_DAY_COUNT,
        r.swap_float_freq == SWAP_FLOAT_FREQ,
{
    ConventionSummary {
        currency: "JPY",
        spot_days: SPOT_DAYS,
        deposit_day_count: DEPOSIT_DAY_COUNT,
        swap_fixed_freq: SWAP_FIXED_FREQ,
        swap_fixed_day_count: SWAP_FIXED_DAY_COUNT,
        swap_float_freq: SWAP_FLOAT_FREQ,
        overnight_index: "TONAR",
        ibor_index: Some("TIBOR 6M"),
        calendar_name: "Japan",
    }
}

/// Every JPY convention summary carries this module's published constants:
/// its spot days, deposit day count, swap fixed frequency and day count and
/// swap float frequency are `SPOT_DAYS`, `DEPOSIT_DAY_COUNT`,
/// `SWAP_FIXED_FREQ`, `SWAP_FIXED_DAY_COUNT` and `SWAP_FLOAT_FREQ`.
pub proof fn lemma_summary_uses_constants(s: ConventionSummary)
    requires
        is_summary(s),
    ensures
        s.spot_days == SPOT_DAYS,
        s.deposit_day_count == DEPOSIT_DAY_COUNT,
        s.swap_fixed_freq == SWAP_FIXED_FREQ,
        s.swap_fixed_day_count == SWAP_FIXED_DAY_COUNT,
        s.swap_float_freq == SWAP_FLOAT_FREQ,
{
}

/// Spot date and maturity of a JPY deposit with tenor `tenor`
/// (e.g. `"O/N"`, `"1M"`, `"3M"`) traded on `reference_date`.
/// The spot date is `SPOT_DAYS` Japan business days after the reference date.
pub fn deposit_period(tenor: &str, reference_date: &Date) -> (r: CurveResult<(Date, Date)>)
    requires
        reference_date@.0 < MAX_YEAR,
    ensures
        ({
            let spot = spec_japan_business_days(reference_date@.0, reference_date@.1, reference_date@.2, SPOT_DAYS as int);
            match r {
                Ok((s, e)) => s@ == spot && deposit_tenor_result(spot, tenor@, Ok(e)),
                Err(err) => deposit_tenor_result(spot, tenor@, Err(err)),
            }
        }),
{
    let spot = japan_add_business_days(reference_date, SPOT_DAYS as i32);
    match parse_tenor(&spot, tenor) {
        Ok(end) => Ok((spot, end)),
        Err(e) => Err(e),
    }
}

} // verus!
