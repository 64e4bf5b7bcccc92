//! EUR market conventions.

use vstd::prelude::*;

use crate::basis::{DayCountConvention, Frequency};
use crate::calendars::{target2_add_business_days, spec_target2_business_days};
use crate::conventions::ConventionSummary;
use crate::date::{Date, MAX_YEAR};
use crate::error::CurveResult;
use crate::instruments::deposit::{deposit_tenor_result, parse_tenor};

verus! {

/// Spot settlement days (T+2).
pub const SPOT_DAYS: u32 = 2;

/// Deposit day count convention.
pub const DEPOSIT_DAY_COUNT: DayCountConvention = DayCountConvention::Act360;

/// Swap fixed leg frequency.
pub const SWAP_FIXED_FREQ: Frequency = Frequency::Annual;

/// Swap fixed leg day count.
pub const SWAP_FIXED_DAY_COUNT: DayCountConvention = DayCountConvention::Thirty360E;

/// Swap float leg frequency.
pub const SWAP_FLOAT_FREQ: Frequency = Frequency::SemiAnnual;

/// OIS fixed leg frequency.
pub const OIS_FIXED_FREQ: Frequency = Frequency::Annual;

/// The EUR convention summary, as a predicate.
pub open spec fn is_summary(s: ConventionSummary) -> bool {
    &&& s.currency@ == "EUR"@
    &&& s.spot_days == 2
    &&& s.deposit_day_count == DayCountConvention::Act360
    &&& s.swap_fixed_freq == Frequency::Annual
    &&& s.swap_fixed_day_count == DayCountConvention::Thirty360E
    &&& s.swap_float_freq == Frequency::SemiAnnual
    &&& s.overnight_index@ == "ESTR"@
    &&& (s.ibor_index matches Some(i) && i@ == "EURIBOR 6M"@)
    &&& s.calendar_name@ == "TARGET2"@
}

/// Market convention summary for EUR.
pub fn summary() -> (r: ConventionSummary)
    ensures
        is_summary(r),
        r.spot_days == SPOT_DAYS,
        r.deposit_day_count == DEPOSIT_DAY_COUNT,
        r.swap_fixed_freq == SWAP_FIXED_FREQ,
        r.swap_fixed_day_count == SWAP_FIXED_DAY_COUNT,
        r.swap_float_freq == SWAP_FLOAT_FREQ,
{
    ConventionSummary {
        currency: "EUR",
        spot_days: SPOT_DAYS,
        deposit_day_count: DEPOSIT_DAY_COUNT,
        swap_fixed_freq: SWAP_FIXED_FREQ,
        swap_fixed_day_count: SWAP_FIXED_DAY_COUNT,
        swap_float_freq: SWAP_FLOAT_FREQ,
        overnight_index: "ESTR",
        ibor_index: Some("EURIBOR 6M"),
        calendar_name: "TARGET2",
    }
}

/// Every EUR convention summary carries this module's published constants:
/// its spot days, deposit day count, swap fixed frequency and day count and
/// swap float frequency are `SPOT_DAYS`, `DEPOSIT_DAY_COUNT`,
/// `SWAP_FIXED_FREQ`, `SWAP_FIXED_DAY_COUNT` and `SWAP_FLOAT_FREQ`.
pub proof fn lemma_summary_uses_constants(s: ConventionSummary)
    requires
        is_summary(s),
    ensures
        s.spot_days == SPOT_DAYS,
        s.deposit_day_count == DEPOSIT_DAY_COUNT,
        s.swap_fixed_freq == SWAP_FIXED_FREQ,
        s.swap_fixed_day_count == SWAP_FIXED_DAY_COUNT,
        s.swap_float_freq == SWAP_FLOAT_FREQ,
{
}

/// Spot date and maturity of a EUR deposit with tenor `tenor`
/// (e.g. `"O/N"`, `"1M"`, `"3M"`) traded on `reference_date`.
/// The spot date is `SPOT_DAYS` TARGET2 business days after the reference date.
pub fn deposit_period(tenor: &str, reference_date: &Date) -> (r: CurveResult<(Date, Date)>)
    requires
        reference_date@.0 < MAX_YEAR,
    ensures
        ({
            let spot = spec_target2_business_days(reference_date@.0, reference_date@.1, reference_date@.2, SPOT_DAYS as int);
            match r {
                Ok((s, e)) => s@ == spot && deposit_tenor_result(spot, tenor@, Ok(e)),
                Err(err) => deposit_tenor_result(spot, tenor@, Err(err)),
            }
        }),
{
    let spot = target2_add_business_days(reference_date, SPOT_DAYS as i32);
    match parse_tenor(&spot, tenor) {
        Ok(end) => Ok((spot, end)),
        Err(e) => Err(e),
    }
}

} // verus!
