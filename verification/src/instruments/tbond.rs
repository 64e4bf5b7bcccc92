//! Treasury notes and bonds: coupon dates.
//!
//! Coupon dates are found by walking back from maturity one coupon period
//! at a time (each step from the previous date, the day clamped to the
//! month) for as long as the dates stay after settlement.

use vstd::prelude::*;

use crate::basis::{spec_months_per_period, Frequency};
use crate::date::{add_months_defined, add_months_result, valid_date, ymd_le, ymd_lt, Date};
use crate::instruments::swap::{month_index, rolled_date};

verus! {

/// Walking back from `maturity` by `step` months stays within the month
/// arithmetic's precondition from every date after `settlement`, and ends:
/// the step is positive unless maturity is already on or before settlement.
pub open spec fn walk_back_defined(
    settlement: (int, int, int),
    maturity: (int, int, int),
    step: int,
) -> bool {
    &&& (step > 0 || !ymd_lt(settlement, maturity))
    &&& forall|k: nat|
        #[trigger] rolled_date(maturity, -step, k) matches Some(d) ==> (ymd_lt(settlement, d)
            ==> add_months_defined(d, -step))
}

/// The dates `0..n` of the walk back from `maturity` exist and are after
/// `settlement`, and the walk stops at `n` (no date, or one on or before
/// settlement).
pub open spec fn walk_back_stops_at(
    settlement: (int, int, int),
    maturity: (int, int, int),
    step: int,
    n: nat,
) -> bool {
    &&& forall|k: nat|
        k < n ==> (#[trigger] rolled_date(maturity, -step, k) matches Some(d) && ymd_lt(
            settlement,
            d,
        ))
    &&& match rolled_date(maturity, -step, n) {
        Some(d) => ymd_le(d, settlement),
        None => true,
    }
}

/// Walks back from `maturity` while the dates are after `settlement`;
/// returns the dates passed, latest first, and where the walk stopped.
fn walk_back(settlement: &Date, maturity: &Date, months_per_period: i32) -> (r: (Vec<Date>, Ghost<nat>))
    requires
        0 <= months_per_period <= 12,
        walk_back_defined(settlement@, maturity@, months_per_period as int),
    ensures
        walk_back_stops_at(settlement@, maturity@, months_per_period as int, r.1@),
        r.0@.len() == r.1@,
        forall|k: int|
            0 <= k < r.1@ ==> rolled_date(maturity@, -(months_per_period as int), k as nat) == Some(
                (#[trigger] r.0@[k])@,
            ),
{
    let ghost step = months_per_period as int;
    let mut flows: Vec<Date> = Vec::new();
    let mut date = *maturity;
    let ghost mut n: nat = 0;

    loop
        invariant_except_break
            step == months_per_period as int,
            0 <= step <= 12,
            walk_back_defined(settlement@, maturity@, step),
            n == flows@.len(),
            rolled_date(maturity@, -step, n) == Some(date@),
            forall|k: nat|
                k < n ==> (#[trigger] rolled_date(maturity@, -step, k) matches Some(d) && ymd_lt(
                    settlement@,
                    d,
                )),
            forall|k: int|
                0 <= k < n ==> rolled_date(maturity@, -step, k as nat) == Some((#[trigger] flows@[k])@),
            n > 0 ==> step > 0,
        ensures
            walk_back_stops_at(settlement@, maturity@, step, n),
            n == flows@.len(),
            forall|k: int|
                0 <= k < n ==> rolled_date(maturity@, -step, k as nat) == Some((#[trigger] flows@[k])@),
        decreases month_index(date@) + 12 - month_index(settlement@),
    {
        if !date.is_after(settlement) {
            break;
        }
        proof {
            assert(step > 0);
        }
        flows.push(date);
        proof {
            assert(add_months_defined(date@, -step));
        }
        match date.add_months(-months_per_period) {
            Ok(prev) => {
                proof {
                    assert(rolled_date(maturity@, -step, n + 1) == Some(prev@));
                    assert(month_index(prev@) == month_index(date@) - step);
                    assert(month_index(settlement@) <= month_index(date@));
                    n = n + 1;
                }
                date = prev;
            },
            Err(_) => {
                proof {
                    n = n + 1;
                }
                break;
            },
        }
    }
    (flows, Ghost(n))
}

/// Dates of the coupons paid after settlement, earliest first: the walk
/// back from maturity, reversed (maturity is the last date).
pub fn coupon_schedule(settlement: &Date, maturity: &Date, frequency: Frequency) -> (r: Vec<Date>)
    requires
        walk_back_defined(settlement@, maturity@, spec_months_per_period(frequency)),
    ensures
        exists|n: nat|
            {
                &&& walk_back_stops_at(settlement@, maturity@, spec_months_per_period(frequency), n)
                &&& r@.len() == n
                &&& forall|k: int|
                    0 <= k < n ==> rolled_date(
                        maturity@,
                        -spec_months_per_period(frequency),
                        k as nat,
                    ) == Some((#[trigger] r@[n - 1 - k])@)
            },
        forall|k: int| 0 <= k < r@.len() ==> ymd_lt(settlement@, (#[trigger] r@[k])@),
        r@.len() > 0 ==> r@[r@.len() - 1]@ == maturity@,
{
    let months_per_period = frequency.months_per_period() as i32;
    let (mut flows, Ghost(n)) = walk_back(settlement, maturity, months_per_period);
    let ghost walked = flows@;
    let mut out: Vec<Date> = Vec::new();
    while flows.len() > 0
        invariant
            flows@.len() + out@.len() == n,
            flows@ == walked.subrange(0, flows@.len() as int),
            walked.len() == n,
            forall|k: int| 0 <= k < out@.len() ==> (#[trigger] out@[k]) == walked[n - 1 - k],
        decreases flows@.len(),
    {
        let d = flows.pop().unwrap();
        out.push(d);
    }
    proof {
        assert forall|k: int| 0 <= k < n implies rolled_date(
            maturity@,
            -spec_months_per_period(frequency),
            k as nat,
        ) == Some((#[trigger] out@[n - 1 - k])@) by {
            assert(out@[n - 1 - k] == walked[k]);
        }
        assert forall|k: int| 0 <= k < out@.len() implies ymd_lt(settlement@, (#[trigger] out@[k])@) by {
            let j = n - 1 - k;
            assert(out@[k] == walked[j]);
            assert(rolled_date(maturity@, -spec_months_per_period(frequency), j as nat) matches Some(
                d,
            ) && ymd_lt(settlement@, d));
        }
        if n > 0 {
            assert(out@[n - 1] == walked[0]);
            assert(rolled_date(maturity@, -spec_months_per_period(frequency), 0) == Some(maturity@));
        }
    }
    out
}

/// The coupon dates around settlement: the earliest coupon of the walk
/// back that is after settlement (or maturity itself, when maturity is
/// not after settlement), and the date one period before it, or the
/// settlement date when that step is out of the calendar's range.
pub open spec fn coupon_dates_match(
    settlement: (int, int, int),
    maturity: (int, int, int),
    step: int,
    n: nat,
    r: ((int, int, int), (int, int, int)),
) -> bool {
    let j: nat = if n == 0 {
        0
    } else {
        (n - 1) as nat
    };
    &&& rolled_date(maturity, -step, j) == Some(r.1)
    &&& match add_months_result(r.1, -step) {
        Some(p) => r.0 == p,
        None => r.0 == settlement,
    }
}

/// Finds the previous and next coupon dates relative to settlement.
pub fn coupon_dates(settlement: &Date, maturity: &Date, frequency: Frequency) -> (r: (Date, Date))
    requires
        walk_back_defined(settlement@, maturity@, spec_months_per_period(frequency)),
        add_months_defined(maturity@, -spec_months_per_period(frequency)),
    ensures
        exists|n: nat|
            walk_back_stops_at(settlement@, maturity@, spec_months_per_period(frequency), n)
                && coupon_dates_match(
                settlement@,
                maturity@,
                spec_months_per_period(frequency),
                n,
                (r.0@, r.1@),
            ),
{
    let months_per_period = frequency.months_per_period() as i32;
    let ghost step = months_per_period as int;
    let mut next_coupon = *maturity;
    let ghost mut j: nat = 0;

    // Walk back from maturity to find the next coupon after settlement
    loop
        invariant_except_break
            step == months_per_period as int,
            0 <= step <= 12,
            walk_back_defined(settlement@, maturity@, step),
            add_months_defined(maturity@, -step),
            rolled_date(maturity@, -step, j) == Some(next_coupon@),
            forall|k: nat|
                k < j ==> (#[trigger] rolled_date(maturity@, -step, k) matches Some(d) && ymd_lt(
                    settlement@,
                    d,
                )),
            j > 0 ==> ymd_lt(settlement@, next_coupon@),
            j > 0 ==> step > 0,
        ensures
            rolled_date(maturity@, -step, j) == Some(next_coupon@),
            add_months_defined(next_coupon@, -step),
            ({
                let n: nat = if ymd_lt(settlement@, next_coupon@) {
                    j + 1
                } else {
                    j
                };
                &&& walk_back_stops_at(settlement@, maturity@, step, n)
                &&& (j == 0 || ymd_lt(settlement@, next_coupon@))
            }),
        decreases month_index(next_coupon@) - month_index(settlement@),
    {
        if !next_coupon.is_after(settlement) {
            break;
        }
        proof {
            assert(rolled_date(maturity@, -step, 0) == Some(maturity@));
            assert(step > 0);
            assert(add_months_defined(next_coupon@, -step));
        }
        match next_coupon.add_months(-months_per_period) {
            Ok(prev) => {
                proof {
                    assert(rolled_date(maturity@, -step, j + 1) == Some(prev@));
                }
                if !prev.is_after(settlement) {
                    break;
                }
                proof {
                    assert(month_index(prev@) == month_index(next_coupon@) - step);
                    assert(month_index(settlement@) <= month_index(prev@));
                    j = j + 1;
                }
                next_coupon = prev;
            },
            Err(_) => {
                break;
            },
        }
    }

    let prev_coupon = match next_coupon.add_months(-months_per_period) {
        Ok(d) => d,
        Err(_) => *settlement,
    };

    proof {
        let n: nat = if ymd_lt(settlement@, next_coupon@) {
            j + 1
        } else {
            j
        };
        assert(walk_back_stops_at(settlement@, maturity@, step, n));
        assert(coupon_dates_match(settlement@, maturity@, step, n, (prev_coupon@, next_coupon@)));
    }
    (prev_coupon, next_coupon)
}

/// One step back by `step >= 0` months from a valid date gives a valid date
/// on or before it.
proof fn lemma_step_back(v: (int, int, int), step: int)
    requires
        valid_date(v),
        0 <= step,
        add_months_result(v, -step) is Some,
    ensures
        valid_date(add_months_result(v, -step)->0),
        ymd_le(add_months_result(v, -step)->0, v),
{
    let t = month_index(v) - step;
    let r = add_months_result(v, -step)->0;
    assert(r.0 * 12 + r.1 - 1 == t);
    assert(1 <= r.1 <= 12);
}

/// Once the walk back reaches a valid date, every later date of the walk is
/// valid and on or before it.
proof fn lemma_walk_back_later(maturity: (int, int, int), step: int, n: nat, k: nat)
    requires
        0 <= step,
        n <= k,
        rolled_date(maturity, -step, n) matches Some(d) && valid_date(d),
    ensures
        rolled_date(maturity, -step, k) matches Some(e) ==> valid_date(e) && ymd_le(
            e,
            rolled_date(maturity, -step, n)->0,
        ),
    decreases k - n,
{
    if k > n {
        lemma_walk_back_later(maturity, step, n, (k - 1) as nat);
        if let Some(p) = rolled_date(maturity, -step, (k - 1) as nat) {
            if add_months_result(p, -step) is Some {
                lemma_step_back(p, step);
            }
        }
    }
}

/// Once the walk back has no date, it has none from then on.
proof fn lemma_walk_back_ended(maturity: (int, int, int), step: int, n: nat, k: nat)
    requires
        n <= k,
        rolled_date(maturity, -step, n) is None,
    ensures
        rolled_date(maturity, -step, k) is None,
    decreases k - n,
{
    if k > n {
        lemma_walk_back_ended(maturity, step, n, (k - 1) as nat);
    }
}

/// Whether `coupon_schedule` and `coupon_dates` can walk back from
/// `maturity` to `settlement` without fault (their precondition).
pub fn coupon_walk_in_range(settlement: &Date, maturity: &Date, frequency: Frequency) -> (r: bool)
    ensures
        r == walk_back_defined(settlement@, maturity@, spec_months_per_period(frequency)),
{
    let months_per_period = frequency.months_per_period() as i32;
    let ghost step = months_per_period as int;
    let valid_maturity = maturity.is_after(settlement);
    if months_per_period == 0 {
        proof {
            if !valid_maturity {
                assert forall|k: nat| (#[trigger] rolled_date(maturity@, -step, k) matches Some(d) ==> (ymd_lt(settlement@, d) ==> add_months_defined(d, -step))) by {
                    lemma_walk_back_later(maturity@, step, 0, k);
                }
            }
        }
        return !valid_maturity;
    }
    let mut date = *maturity;
    let ghost mut n: nat = 0;
    loop
        invariant
            step == months_per_period as int,
            step == spec_months_per_period(frequency),
            1 <= step <= 12,
            rolled_date(maturity@, -step, n) == Some(date@),
            valid_date(date@),
            forall|k: nat|
                k < n ==> (#[trigger] rolled_date(maturity@, -step, k) matches Some(d) && ymd_lt(
                    settlement@,
                    d,
                ) && add_months_defined(d, -step)),
        decreases month_index(date@) + 12 - month_index(settlement@),
    {
        if !date.is_after(settlement) {
            proof {
                assert forall|k: nat| (#[trigger] rolled_date(maturity@, -step, k) matches Some(d) ==> (ymd_lt(settlement@, d) ==> add_months_defined(d, -step))) by {
                    if k >= n {
                        lemma_walk_back_later(maturity@, step, n, k);
                    }
                }
            }
            return true;
        }
        if !date.can_add_months(-months_per_period) {
            proof {
                assert(rolled_date(maturity@, -step, n) matches Some(d) && ymd_lt(settlement@, d)
                    && !add_months_defined(d, -step));
            }
            return false;
        }
        match date.add_months(-months_per_period) {
            Ok(prev) => {
                proof {
                    assert(rolled_date(maturity@, -step, n + 1) == Some(prev@));
                    assert(month_index(prev@) == month_index(date@) - step);
                    assert(month_index(settlement@) <= month_index(date@));
                    n = n + 1;
                }
                date = prev;
            },
            Err(_) => {
                proof {
                    assert(rolled_date(maturity@, -step, n + 1) is None);
                    assert forall|k: nat| (#[trigger] rolled_date(maturity@, -step, k) matches Some(d) ==> (ymd_lt(settlement@, d) ==> add_months_defined(d, -step))) by {
                        if k > n {
                            lemma_walk_back_ended(maturity@, step, n + 1, k);
                        }
                    }
                }
                return true;
            },
        }
    }
}

} // verus!
