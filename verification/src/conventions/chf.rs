//! CHF market conventions.

use vstd::prelude::*;

use crate::basis::{DayCountConvention, Frequency};
use crate::conventions::ConventionSummary;

verus! {

/// Spot settlement days (T+2).
pub const SPOT_DAYS: u32 = 2;

/// Deposit day count convention.
pub const DEPOSIT_DAY_COUNT: DayCountConvention = DayCountConvention::Act360;

/// Swap fixed leg frequency.
pub const SWAP_FIXED_FREQ: Frequency = Frequency::Annual;

/// Swap fixed leg day count.
pub const SWAP_FIXED_DAY_COUNT: DayCountConvention = DayCountConvention::Thirty360E;

/// Swap float leg frequency.
pub const SWAP_FLOAT_FREQ: Frequency = Frequency::SemiAnnual;

/// The CHF convention summary, as a predicate.
pub open spec fn is_summary(s: ConventionSummary) -> bool {
    &&& s.currency@ == "CHF"@
    &&& s.spot_days == 2
    &&& s.deposit_day_count == DayCountConvention::Act360
    &&& s.swap_fixed_freq == Frequency::Annual
    &&& s.swap_fixed_day_count == DayCountConvention::Thirty360E
    &&& s.swap_float_freq == Frequency::SemiAnnual
    &&& s.overnight_index@ == "SARON"@
    &&& s.ibor_index is None
    &&& s.calendar_name@ == "Zurich"@
}

/// Market convention summary for CHF.
pub fn summary() -> (r: ConventionSummary)
    ensures
        is_summary(r),
        r.spot_days == SPOT_DAYS,
        r.deposit_day_count == DEPOSIT_DAY_COUNT,
        r.swap_fixed_freq == SWAP_FIXED_FREQ,
        r.swap_fixed_day_count == SWAP_FIXED_DAY_COUNT,
        r.swap_float_freq == SWAP_FLOAT_FREQ,
{
    ConventionSummary {
        currency: "CHF",
        spot_days: SPOT_DAYS,
        deposit_day_count: DEPOSIT_DAY_COUNT,
        swap_fixed_freq: SWAP_FIXED_FREQ,
        swap_fixed_day_count: SWAP_FIXED_DAY_COUNT,
        swap_float_freq: SWAP_FLOAT_FREQ,
        overnight_index: "SARON",
        ibor_index: None,
        calendar_name: "Zurich",
    }
}

/// Every CHF convention summary carries this module's published constants:
/// its spot days, deposit day count, swap fixed frequency and day count and
/// swap float frequency are `SPOT_DAYS`, `DEPOSIT_DAY_COUNT`,
/// `SWAP_FIXED_FREQ`, `SWAP_FIXED_DAY_COUNT` and `SWAP_FLOAT_FREQ`.
pub proof fn lemma_summary_uses_constants(s: ConventionSummary)
    requires
        is_summary(s),
    ensures
        s.spot_days == SPOT_DAYS,
        s.deposit_day_count == DEPOSIT_DAY_COUNT,
        s.swap_fixed_freq == SWAP_FIXED_FREQ,
        s.swap_fixed_day_count == SWAP_FIXED_DAY_COUNT,
        s.swap_float_freq == SWAP_FLOAT_FREQ,
{
}

} // verus!
