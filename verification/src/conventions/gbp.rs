//! GBP market conventions.

use vstd::prelude::*;

use crate::basis::{DayCountConvention, Frequency};
use crate::calendars::{uk_add_business_days, spec_uk_business_days};
use crate::conventions::ConventionSummary;
use crate::date::Date;
use crate::error::CurveResult;
use crate::instruments::deposit::{deposit_tenor_result, parse_tenor};

verus! {

/// Spot settlement days (T+0).
pub const SPOT_DAYS: u32 = 0;

/// Deposit day count convention.
pub const DEPOSIT_DAY_COUNT: DayCountConvention = DayCountConvention::Act365Fixed;

/// Swap fixed leg frequency.
pub const SWAP_FIXED_FREQ: Frequency = Frequency::Annual;

/// Swap fixed leg day count.
pub const SWAP_FIXED_DAY_COUNT: DayCountConvention = DayCountConvention::Act365Fixed;

/// Swap float leg frequency.
pub const SWAP_FLOAT_FREQ: Frequency = Frequency::Annual;

/// OIS fixed leg frequency.
pub const OIS_FIXED_FREQ: Frequency = Frequency::Annual;

/// The GBP convention summary, as a predicate.
pub open spec fn is_summary(s: ConventionSummary) -> bool {
    &&& s.currency@ == "GBP"@
    &&& s.spot_days == 0
    &&& s.deposit_day_count == DayCountConvention::Act365Fixed
    &&& s.swap_fixed_freq == Frequency::Annual
    &&& s.swap_fixed_day_count == DayCountConvention::Act365Fixed
    &&& s.swap_float_freq == Frequency::Annual
    &&& s.overnight_index@ == "SONIA"@
    &&& s.ibor_index is None
    &&& s.calendar_name@ == "UK"@
}

/// Market convention summary for GBP.
pub fn summary() -> (r: ConventionSummary)
    ensures
        is_summary(r),
        r.spot_days == SPOT_DAYS,
        r.deposit_day_count == DEPOSIT_DAY_COUNT,
        r.swap_fixed_freq == SWAP_FIXED_FREQ,
        r.swap_fixed_day_count == SWAP_FIXED_DAY_COUNT,
        r.swap_float_freq == SWAP_FLOAT_FREQ,
{
    ConventionSummary {
        currency: "GBP",
        spot_days: SPOT_DAYS,
        deposit_day_count: DEPOSIT_DAY_COUNT,
        swap_fixed_freq: SWAP_FIXED_FREQ,
        swap_fixed_day_count: SWAP_FIXED_DAY_COUNT,
        swap_float_freq: SWAP_FLOAT_FREQ,
        overnight_index: "SONIA",
        ibor_index: None,
        calendar_name: "UK",
    }
}

/// Every GBP convention summary carries this module's published constants:
/// its spot days, deposit day count, swap fixed frequency and day count and
/// swap float frequency are `SPOT_DAYS`, `DEPOSIT_DAY_COUNT`,
/// `SWAP_FIXED_FREQ`, `SWAP_FIXED_DAY_COUNT` and `SWAP_FLOAT_FREQ`.
pub proof fn lemma_summary_uses_constants(s: ConventionSummary)
    requires
        is_summary(s),
    ensures
        s.spot_days == SPOT_DAYS,
        s.deposit_day_count == DEPOSIT_DAY_COUNT,
        s.swap_fixed_freq == SWAP_FIXED_FREQ,
        s.swap_fixed_day_count == SWAP_FIXED_DAY_COUNT,
        s.swap_float_freq == SWAP_FLOAT_FREQ,
{
}

/// Spot date and maturity of a GBP deposit with tenor `tenor`
/// (e.g. `"O/N"`, `"1M"`, `"3M"`) traded on `reference_date`.
/// The spot date is the reference date itself (same-day settlement).
pub fn deposit_period(tenor: &str, reference_date: &Date) -> (r: CurveResult<(Date, Date)>)
    ensures
        ({
            let spot = reference_date@;
            match r {
                Ok((s, e)) => s@ == spot && deposit_tenor_result(spot, tenor@, Ok(e)),
                Err(err) => deposit_tenor_result(spot, tenor@, Err(err)),
            }
        }),
{
    let spot = if SPOT_DAYS == 0 {
        *reference_date
    } else {
        uk_add_business_days(reference_date, SPOT_DAYS as i32)
    };
    match parse_tenor(&spot, tenor) {
        Ok(end) => Ok((spot, end)),
        Err(e) => Err(e),
    }
}

} // verus!
