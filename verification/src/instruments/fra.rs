//! Forward rate agreements: the accrual period of an `m x n` FRA.

use vstd::prelude::*;

use crate::date::{add_months_defined, add_months_result, spec_add_months_error, Date};
use crate::error::{CurveError, CurveResult};
use crate::text::concat;

verus! {

/// Computing the FRA period runs without fault: the start step is within
/// its precondition, and so is the end step when the start succeeds.
pub open spec fn fra_period_defined(trade: (int, int, int), start_months: int, end_months: int) -> bool {
    &&& add_months_defined(trade, start_months)
    &&& (add_months_result(trade, start_months) is Some ==> add_months_defined(trade, end_months))
}

/// The accrual period of an FRA traded on `trade_date` that starts
/// `start_months` and ends `end_months` months later (e.g. 3 and 6 for a
/// 3x6 FRA), or the error of the date arithmetic.
pub fn fra_period(trade_date: &Date, start_months: i32, end_months: i32) -> (r: CurveResult<
    (Date, Date),
>)
    requires
        fra_period_defined(trade_date@, start_months as int, end_months as int),
    ensures
        match add_months_result(trade_date@, start_months as int) {
            None => r matches Err(CurveError::InvalidData { reason }) && reason@
                == "Failed to calculate start date: "@ + spec_add_months_error(
                trade_date@.0,
                trade_date@.1,
                trade_date@.2,
                start_months as int,
            ),
            Some(s) => match add_months_result(trade_date@, end_months as int) {
                None => r matches Err(CurveError::InvalidData { reason }) && reason@
                    == "Failed to calculate end date: "@ + spec_add_months_error(
                    trade_date@.0,
                    trade_date@.1,
                    trade_date@.2,
                    end_months as int,
                ),
                Some(e) => r matches Ok((a, b)) && a@ == s && b@ == e,
            },
        },
{
    let start_date = match trade_date.add_months(start_months) {
        Ok(d) => d,
        Err(e) => {
            return Err(
                CurveError::InvalidData {
                    reason: concat("Failed to calculate start date: ", e.message.as_str()),
                },
            );
        },
    };
    let end_date = match trade_date.add_months(end_months) {
        Ok(d) => d,
        Err(e) => {
            return Err(
                CurveError::InvalidData {
                    reason: concat("Failed to calculate end date: ", e.message.as_str()),
                },
            );
        },
    };
    Ok((start_date, end_date))
}

} // verus!
