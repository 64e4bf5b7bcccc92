//! Interest rate swaps: the termination date a swap tenor names and the
//! fixed leg's payment schedule.

use vstd::prelude::*;
use vstd::utf8::is_ascii_chars;
use vstd::string::*;

use crate::basis::{spec_months_per_period, Frequency};
use crate::date::{
    add_months_defined, add_months_result, add_years_defined, add_years_result,
    lemma_add_months_direction, lemma_add_years_direction,
    spec_add_months_error, spec_add_years_error, ymd_le, ymd_lt, Date,
};
use crate::error::{CurveError, CurveResult};
use crate::instruments::deposit::is_invalid_data;
use crate::text::{ascii_upper, char_len, concat, parse_signed, parse_signed_range, spec_to_uppercase, to_uppercase};

verus! {

/// `parse_signed` for the values of an `i32`.
pub open spec fn parse_i32(s: Seq<char>) -> Option<int> {
    parse_signed(s, i32::MIN as int, i32::MAX as int)
}

/// Reading an upper-cased swap tenor from `start` runs without fault.
pub open spec fn swap_tenor_defined(start: (int, int, int), u: Seq<char>) -> bool {
    if u.len() > 0 && u.last() == 'Y' {
        match parse_i32(u.drop_last()) {
            Some(n) => add_years_defined(start, n),
            None => true,
        }
    } else if u.len() > 0 && u.last() == 'M' {
        match parse_i32(u.drop_last()) {
            Some(n) => add_months_defined(start, n),
            None => true,
        }
    } else {
        true
    }
}

/// What an upper-cased swap tenor (`"<n>Y"` or `"<n>M"`) gives from
/// `start`: the termination date, or the error.
pub open spec fn swap_end_matches(start: (int, int, int), u: Seq<char>, r: CurveResult<Date>) -> bool {
    if u.len() > 0 && u.last() == 'Y' {
        match parse_i32(u.drop_last()) {
            None => is_invalid_data(r, "Invalid tenor: "@ + u),
            Some(n) => match add_years_result(start, n) {
                Some(v) => r matches Ok(d) && d@ == v,
                None => is_invalid_data(
                    r,
                    "Failed to calculate end date: "@ + spec_add_years_error(
                        start.0,
                        start.1,
                        start.2,
                        n,
                    ),
                ),
            },
        }
    } else if u.len() > 0 && u.last() == 'M' {
        match parse_i32(u.drop_last()) {
            None => is_invalid_data(r, "Invalid tenor: "@ + u),
            Some(n) => match add_months_result(start, n) {
                Some(v) => r matches Ok(d) && d@ == v,
                None => is_invalid_data(
                    r,
                    "Failed to calculate end date: "@ + spec_add_months_error(
                        start.0,
                        start.1,
                        start.2,
                        n,
                    ),
                ),
            },
        }
    } else {
        is_invalid_data(r, "Invalid tenor format: "@ + u)
    }
}

/// The signed number of months or years a swap tenor counts (0 for an
/// unreadable tenor).
pub open spec fn swap_tenor_count(u: Seq<char>) -> int {
    if u.len() > 0 && (u.last() == 'Y' || u.last() == 'M') {
        match parse_i32(u.drop_last()) {
            Some(n) => n,
            None => 0,
        }
    } else {
        0
    }
}

/// Whether reading the upper-cased tenor `u` from `start` is within
/// `parse_tenor_upper`'s precondition.
pub fn swap_tenor_in_range(start: &Date, u: &str) -> (r: bool)
    ensures
        r == swap_tenor_defined(start@, u@),
{
    let n = char_len(u);
    if n == 0 {
        return true;
    }
    let unit = u.get_char(n - 1);
    if unit != 'Y' && unit != 'M' {
        return true;
    }
    assert(u@.subrange(0, n - 1) =~= u@.drop_last());
    match parse_signed_range(u, 0, n - 1, i32::MIN as i64, i32::MAX as i64) {
        None => true,
        Some(num) => if unit == 'Y' {
            start.can_add_years(num as i32)
        } else {
            start.can_add_months(num as i32)
        },
    }
}

/// The termination date named by an upper-cased swap tenor `u`.
pub fn parse_tenor_upper(start: &Date, u: &str) -> (r: CurveResult<Date>)
    requires
        swap_tenor_defined(start@, u@),
    ensures
        swap_end_matches(start@, u@, r),
        r matches Ok(d) ==> (swap_tenor_count(u@) > 0 ==> ymd_lt(start@, d@)),
{
    let n = char_len(u);
    if n == 0 {
        return Err(CurveError::InvalidData { reason: concat("Invalid tenor format: ", u) });
    }
    let unit = u.get_char(n - 1);
    if unit != 'Y' && unit != 'M' {
        return Err(CurveError::InvalidData { reason: concat("Invalid tenor format: ", u) });
    }
    assert(u@.subrange(0, n - 1) =~= u@.drop_last());
    let num = match parse_signed_range(u, 0, n - 1, i32::MIN as i64, i32::MAX as i64) {
        Some(v) => v as i32,
        None => return Err(CurveError::InvalidData { reason: concat("Invalid tenor: ", u) }),
    };
    let moved = if unit == 'Y' {
        start.add_years(num)
    } else {
        start.add_months(num)
    };
    match moved {
        Ok(d) => {
            proof {
                if unit == 'Y' {
                    lemma_add_years_direction(start@, num as int);
                } else {
                    lemma_add_months_direction(start@, num as int);
                }
            }
            Ok(d)
        },
        Err(e) => Err(
            CurveError::InvalidData {
                reason: concat("Failed to calculate end date: ", e.message.as_str()),
            },
        ),
    }
}

/// Parses a swap tenor (`"<n>Y"` or `"<n>M"`, any case) into the
/// termination date.
///
/// A tenor whose date arithmetic would overflow gives an `InvalidData`
/// error reading `"Tenor out of range: "` followed by the upper-cased tenor.
pub fn parse_tenor(start: &Date, tenor: &str) -> (r: CurveResult<Date>)
    ensures
        is_ascii_chars(tenor@) ==> spec_to_uppercase(tenor@) == tenor@.map_values(|c: char| ascii_upper(c)),
        swap_tenor_defined(start@, spec_to_uppercase(tenor@)) ==> swap_end_matches(
            start@,
            spec_to_uppercase(tenor@),
            r,
        ),
        !swap_tenor_defined(start@, spec_to_uppercase(tenor@)) ==> is_invalid_data(
            r,
            "Tenor out of range: "@ + spec_to_uppercase(tenor@),
        ),
        r matches Ok(d) ==> (swap_tenor_count(spec_to_uppercase(tenor@)) > 0 ==> ymd_lt(start@, d@)),
{
    let upper = to_uppercase(tenor);
    if !swap_tenor_in_range(start, upper.as_str()) {
        return Err(
            CurveError::InvalidData { reason: concat("Tenor out of range: ", upper.as_str()) },
        );
    }
    parse_tenor_upper(start, upper.as_str())
}

/// The `k`-th date of a roll from `start` by `step` months at a time
/// (each step from the previous date, day clamped to the month).
pub open spec fn rolled_date(start: (int, int, int), step: int, k: nat) -> Option<(int, int, int)>
    decreases k,
{
    if k == 0 {
        Some(start)
    } else {
        match rolled_date(start, step, (k - 1) as nat) {
            Some(d) => add_months_result(d, step),
            None => None,
        }
    }
}

/// Rolling from `start` toward `end` by `step` months keeps every month
/// step within its precondition (the step from `start`, and from each
/// rolled date not after `end`).
pub open spec fn schedule_defined(start: (int, int, int), end: (int, int, int), step: int) -> bool {
    &&& add_months_defined(start, step)
    &&& forall|k: nat|
        1 <= k ==> (#[trigger] rolled_date(start, step, k) matches Some(d) ==> (ymd_le(d, end)
            ==> add_months_defined(d, step)))
}

/// Month index of a date.
pub open spec fn month_index(d: (int, int, int)) -> int {
    d.0 * 12 + d.1 - 1
}

/// The rolled dates `1..=m` all exist and are on or before `end`, and the
/// roll stops at `m + 1` (no date, or one after `end`).
pub open spec fn roll_stops_at(start: (int, int, int), end: (int, int, int), step: int, m: nat) -> bool {
    &&& forall|k: nat|
        1 <= k <= m ==> (#[trigger] rolled_date(start, step, k) matches Some(d) && ymd_le(d, end))
    &&& match rolled_date(start, step, m + 1) {
        Some(d) => ymd_lt(end, d),
        None => true,
    }
}

/// Generates a payment schedule: the dates reached by rolling forward
/// from `start` one period at a time while they stay on or before `end`,
/// followed by `end` itself unless the roll landed on it.  A zero-coupon
/// frequency gives just `end`.
pub fn generate_schedule(start: &Date, end: &Date, frequency: Frequency) -> (r: Vec<Date>)
    requires
        spec_months_per_period(frequency) > 0 ==> schedule_defined(
            start@,
            end@,
            spec_months_per_period(frequency),
        ),
    ensures
        spec_months_per_period(frequency) == 0 ==> r@.len() == 1 && r@[0]@ == end@,
        spec_months_per_period(frequency) > 0 ==> exists|m: nat|
            {
                &&& roll_stops_at(start@, end@, spec_months_per_period(frequency), m)
                &&& forall|k: int|
                    0 <= k < m ==> rolled_date(start@, spec_months_per_period(frequency), (k + 1) as nat)
                        == Some((#[trigger] r@[k])@)
                &&& if m > 0 && r@[m - 1]@ == end@ {
                    r@.len() == m
                } else {
                    r@.len() == m + 1 && r@[m as int]@ == end@
                }
            },
        r@.len() > 0,
        r@[r@.len() - 1]@ == end@,
        forall|i: int, j: int| 0 <= i < j < r@.len() ==> ymd_lt((#[trigger] r@[i])@, (#[trigger] r@[j])@),
{
    let months_per_period = frequency.months_per_period() as i32;
    if months_per_period == 0 {
        let mut only: Vec<Date> = Vec::new();
        only.push(*end);
        return only;
    }
    let ghost step = months_per_period as int;

    let mut dates: Vec<Date> = Vec::new();
    let mut current = *start;
    let ghost mut m: nat = 0;

    loop
        invariant_except_break
            step == spec_months_per_period(frequency),
            months_per_period as int == step,
            1 <= step <= 12,
            schedule_defined(start@, end@, step),
            m == dates@.len(),
            rolled_date(start@, step, m) == Some(current@),
            m > 0 ==> ymd_le(current@, end@),
            forall|k: nat|
                1 <= k <= m ==> (#[trigger] rolled_date(start@, step, k) matches Some(d) && ymd_le(
                    d,
                    end@,
                )),
            forall|k: int|
                0 <= k < m ==> rolled_date(start@, step, (k + 1) as nat) == Some((#[trigger] dates@[k])@),
            m > 0 ==> dates@[m - 1]@ == current@,
            forall|i: int, j: int|
                0 <= i < j < m ==> ymd_lt((#[trigger] dates@[i])@, (#[trigger] dates@[j])@),
            forall|k: int| 0 <= k < m ==> ymd_le((#[trigger] dates@[k])@, end@),
        ensures
            roll_stops_at(start@, end@, step, m),
            m == dates@.len(),
            forall|k: int|
                0 <= k < m ==> rolled_date(start@, step, (k + 1) as nat) == Some((#[trigger] dates@[k])@),
            forall|i: int, j: int|
                0 <= i < j < m ==> ymd_lt((#[trigger] dates@[i])@, (#[trigger] dates@[j])@),
            forall|k: int| 0 <= k < m ==> ymd_le((#[trigger] dates@[k])@, end@),
        decreases month_index(end@) + step - month_index(current@),
    {
        proof {
            if m > 0 {
                assert(rolled_date(start@, step, m) matches Some(d) && ymd_le(d, end@));
            }
            assert(add_months_defined(current@, step));
        }
        match current.add_months(months_per_period) {
            Ok(next) => {
                proof {
                    assert(rolled_date(start@, step, m + 1) == Some(next@));
                    let t = month_index(current@) + step;
                    assert(month_index(next@) == t);
                }
                if next.is_after(end) {
                    break;
                }
                proof {
                    if m > 0 {
                        assert(ymd_lt(dates@[m - 1]@, next@));
                    }
                    assert(ymd_le(next@, end@));
                    assert(month_index(next@) <= month_index(end@));
                    assert(month_index(next@) == month_index(current@) + step);
                }
                dates.push(next);
                current = next;
                proof {
                    m = m + 1;
                    assert forall|i: int, j: int|
                        0 <= i < j < m implies ymd_lt(
                        (#[trigger] dates@[i])@,
                        (#[trigger] dates@[j])@,
                    ) by {
                        if j < m - 1 {
                        } else if i < m - 2 {
                            assert(ymd_lt(dates@[i]@, dates@[m - 2]@));
                        }
                    }
                }
            },
            Err(_) => {
                break;
            },
        }
    }

    // Ensure termination date is included
    let n = dates.len();
    if n == 0 || !dates[n - 1].same_day(end) {
        proof {
            assert forall|i: int, j: int|
                0 <= i < j < n + 1 implies ymd_lt(
                (#[trigger] dates@.push(*end)[i])@,
                (#[trigger] dates@.push(*end)[j])@,
            ) by {
                if j == n {
                    assert(ymd_le(dates@[i]@, end@));
                    if i < n - 1 {
                        assert(ymd_lt(dates@[i]@, dates@[n - 1]@));
                    }
                }
            }
        }
        dates.push(*end);
    }
    dates
}

/// The `k`-th date of a roll by `step` months lies `k * step` months after
/// the start (its year and month; the day may be clamped).
pub proof fn lemma_rolled_month_index(start: (int, int, int), step: int, k: nat)
    ensures
        rolled_date(start, step, k) matches Some(d) ==> month_index(d) == month_index(start) + k
            * step,
    decreases k,
{
    if k == 0 {
        assert(k * step == 0) by (nonlinear_arith)
            requires
                k == 0,
        ;
    } else {
        let j = (k - 1) as nat;
        lemma_rolled_month_index(start, step, j);
        if let Some(p) = rolled_date(start, step, j) {
            if let Some(r) = add_months_result(p, step) {
                let t = month_index(p) + step;
                assert(r.0 * 12 + r.1 - 1 == t);
                assert(j * step + step == k * step) by (nonlinear_arith)
                    requires
                        k == j + 1,
                ;
            }
        }
    }
}

/// A monthly schedule steps one calendar month at a time: the `k`-th date
/// of a monthly roll is `k` months after the start, so consecutive dates
/// of `generate_schedule(start, end, Frequency::Monthly)` are one month
/// apart.
pub proof fn lemma_monthly_roll_steps_one_month(start: (int, int, int), k: nat)
    ensures
        rolled_date(start, spec_months_per_period(Frequency::Monthly), k) matches Some(d)
            ==> month_index(d) == month_index(start) + k,
        rolled_date(start, spec_months_per_period(Frequency::Monthly), k + 1) matches Some(e)
            ==> (rolled_date(start, spec_months_per_period(Frequency::Monthly), k) matches Some(d)
            && month_index(e) == month_index(d) + 1),
{
    lemma_rolled_month_index(start, 1, k);
    lemma_rolled_month_index(start, 1, k + 1);
}

} // verus!
