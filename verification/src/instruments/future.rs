//! Rate futures (SOFR, Eurodollar): contract types and IMM dates.
//!
//! IMM dates are the third Wednesdays of March, June, September and
//! December, the standard expiries of rate futures.

use vstd::prelude::*;

use crate::date::{days_in_month, lemma_in_month_in_range, valid_date, spec_weekday, valid_ymd, ymd_lt, Date, MAX_YEAR, MIN_YEAR};

verus! {

/// Type of rate future.
#[derive(Debug, Clone, Copy, PartialEq, Eq, Hash, Structural)]
pub enum FutureType {
    /// 1-month SOFR futures (CME)
    SOFR1M,
    /// 3-month SOFR futures (CME)
    SOFR3M,
    /// 3-month Eurodollar futures (legacy, CME)
    Eurodollar,
    /// 3-month SONIA futures (ICE)
    SONIA3M,
    /// 3-month EURIBOR futures (Eurex)
    EURIBOR3M,
}

/// Contract name of a future type.
pub open spec fn spec_future_name(t: FutureType) -> Seq<char> {
    match t {
        FutureType::SOFR1M => "SOFR 1M"@,
        FutureType::SOFR3M => "SOFR 3M"@,
        FutureType::Eurodollar => "Eurodollar"@,
        FutureType::SONIA3M => "SONIA 3M"@,
        FutureType::EURIBOR3M => "EURIBOR 3M"@,
    }
}

impl FutureType {
    /// Returns the tenor in months: 1 for one-month SOFR, 3 for the others.
    pub fn tenor_months(&self) -> (r: u32)
        ensures
            r == (if *self == FutureType::SOFR1M {
                1u32
            } else {
                3u32
            }),
    {
        match self {
            Self::SOFR1M => 1,
            Self::SOFR3M | Self::Eurodollar | Self::SONIA3M | Self::EURIBOR3M => 3,
        }
    }

    /// Returns the contract name.
    pub fn name(&self) -> (r: &'static str)
        ensures
            r@ == spec_future_name(*self),
    {
        match self {
            Self::SOFR1M => "SOFR 1M",
            Self::SOFR3M => "SOFR 3M",
            Self::Eurodollar => "Eurodollar",
            Self::SONIA3M => "SONIA 3M",
            Self::EURIBOR3M => "EURIBOR 3M",
        }
    }
}

/// The third Wednesday of a month: day `15 + (9 - w) % 7`, where `w` is
/// the weekday (from Monday) of the month's first day; `None` when the
/// month does not exist in the calendar's range.
pub open spec fn spec_third_wednesday(year: int, month: int) -> Option<(int, int, int)> {
    if valid_ymd(year, month, 1) {
        Some((year, month, 15 + (9 - spec_weekday(year, month, 1)) % 7))
    } else {
        None
    }
}

/// Calculates the IMM date (third Wednesday) for a given month.
///
/// IMM dates are the standard expiry dates for rate futures.
pub fn imm_date(year: i32, month: u32) -> (r: Option<Date>)
    ensures
        r is Some <==> spec_third_wednesday(year as int, month as int) is Some,
        r matches Some(d) ==> Some(d@) == spec_third_wednesday(year as int, month as int),
        r matches Some(d) ==> spec_weekday(d@.0, d@.1, d@.2) == 2 && 15 <= d@.2 <= 21,
{
    let first = match Date::from_ymd(year, month, 1) {
        Some(d) => d,
        None => return None,
    };
    let weekday = first.weekday() as i64;
    let days_to_wed = (2 - weekday + 7) % 7;
    proof {
        assert(days_in_month(year as int, month as int) >= 28);
        lemma_in_month_in_range(first@, days_to_wed + 14);
    }
    let third_wed = first.add_days(days_to_wed + 14);
    Some(third_wed)
}

/// Month of IMM slot `i` (0 to 3): March, June, September, December.
pub open spec fn imm_month(i: int) -> int {
    3 * (i + 1)
}

/// First IMM slot strictly after `month` in the same year: 0 to 3, or 4
/// (March of the next year) from December on.
pub open spec fn first_imm_slot(month: int) -> int {
    if month < 3 {
        0
    } else if month < 6 {
        1
    } else if month < 9 {
        2
    } else if month < 12 {
        3
    } else {
        4
    }
}

/// Absolute index (four per year) of the `k`-th IMM month after `from`.
pub open spec fn imm_slot(from: (int, int, int), k: int) -> int {
    from.0 * 4 + first_imm_slot(from.1) + k
}

/// Year of the `k`-th IMM month after `from`.
pub open spec fn imm_slot_year(from: (int, int, int), k: int) -> int {
    imm_slot(from, k) / 4
}

/// Month of the `k`-th IMM month after `from`.
pub open spec fn imm_slot_month(from: (int, int, int), k: int) -> int {
    imm_month(imm_slot(from, k) % 4)
}

/// The `k`-th IMM date after `from` (counted from 0).
pub open spec fn spec_nth_imm_date(from: (int, int, int), k: int) -> (int, int, int) {
    let y = imm_slot_year(from, k);
    let m = imm_slot_month(from, k);
    (y, m, 15 + (9 - spec_weekday(y, m, 1)) % 7)
}

/// The IMM dates `next_imm_dates` walks through all lie in the calendar's
/// range (beyond it the walk never ends).
pub open spec fn next_imm_dates_defined(from: (int, int, int), count: int) -> bool {
    count == 0 || imm_slot_year(from, count - 1) <= MAX_YEAR
}

/// Returns the next `count` IMM dates from a given date, starting with the
/// IMM month after the date's own month.
pub fn next_imm_dates(from: &Date, count: usize) -> (r: Vec<Date>)
    requires
        next_imm_dates_defined(from@, count as int),
    ensures
        r@.len() == count,
        forall|k: int| 0 <= k < count ==> (#[trigger] r@[k])@ == spec_nth_imm_date(from@, k),
        forall|k: int| 0 <= k < count ==> ymd_lt(from@, (#[trigger] r@[k])@),
        forall|i: int, j: int|
            0 <= i < j < count ==> ymd_lt((#[trigger] r@[i])@, (#[trigger] r@[j])@),
        forall|k: int|
            0 <= k < count ==> {
                let d = (#[trigger] r@[k])@;
                &&& spec_weekday(d.0, d.1, d.2) == 2
                &&& 15 <= d.2 <= 21
                &&& (d.1 == 3 || d.1 == 6 || d.1 == 9 || d.1 == 12)
            },
{
    let mut dates: Vec<Date> = Vec::new();
    let mut year = from.year();
    let month = from.month();

    // IMM months: March (3), June (6), September (9), December (12)
    let imm_months: [u32; 4] = [3, 6, 9, 12];

    // Find the next IMM month
    let mut pos: usize = 0;
    while pos < 4 && imm_months[pos] <= month
        invariant
            pos <= 4,
            imm_months@ == seq![3u32, 6u32, 9u32, 12u32],
            forall|i: int| 0 <= i < pos ==> imm_months@[i] <= month,
        decreases 4 - pos,
    {
        pos = pos + 1;
    }
    let ghost slot0 = pos as int;
    assert(slot0 == first_imm_slot(month as int));
    let mut imm_idx: usize = if pos < 4 {
        pos
    } else {
        0
    };

    if imm_idx == 0 && month >= 12 {
        year += 1;
    }

    while dates.len() < count
        invariant
            imm_months@ == seq![3u32, 6u32, 9u32, 12u32],
            imm_idx < 4,
            dates@.len() <= count,
            valid_ymd(from@.0, from@.1, from@.2),
            next_imm_dates_defined(from@, count as int),
            year as int * 4 + imm_idx as int == imm_slot(from@, dates@.len() as int),
            forall|k: int|
                0 <= k < dates@.len() ==> (#[trigger] dates@[k])@ == spec_nth_imm_date(from@, k),
            forall|k: int| 0 <= k < dates@.len() ==> ymd_lt(from@, (#[trigger] dates@[k])@),
            forall|i: int, j: int|
                0 <= i < j < dates@.len() ==> ymd_lt((#[trigger] dates@[i])@, (#[trigger] dates@[j])@),
            forall|k: int|
                0 <= k < dates@.len() ==> {
                    let d = (#[trigger] dates@[k])@;
                    &&& spec_weekday(d.0, d.1, d.2) == 2
                    &&& 15 <= d.2 <= 21
                    &&& (d.1 == 3 || d.1 == 6 || d.1 == 9 || d.1 == 12)
                },
        decreases count - dates@.len(),
    {
        let ghost k = dates@.len() as int;
        let imm_month_now = imm_months[imm_idx];
        proof {
            assert(imm_slot_year(from@, k) == year as int);
            assert(imm_slot_month(from@, k) == imm_month_now as int);
            assert(imm_slot_year(from@, k) <= imm_slot_year(from@, count as int - 1));
            assert(MIN_YEAR <= from@.0 <= year);
        }
        match imm_date(year, imm_month_now) {
            Some(date) => {
                proof {
                    assert(date@ == spec_nth_imm_date(from@, k));
                    if year as int == from@.0 {
                        assert(imm_idx as int >= first_imm_slot(from@.1));
                    }
                    assert(ymd_lt(from@, date@));
                    if k > 0 {
                        let prev = dates@[k - 1]@;
                        assert(prev == spec_nth_imm_date(from@, k - 1));
                        assert(ymd_lt(prev, date@));
                        assert forall|i: int| 0 <= i < k implies ymd_lt(
                            (#[trigger] dates@[i])@,
                            date@,
                        ) by {
                            if i < k - 1 {
                                assert(ymd_lt(dates@[i]@, dates@[k - 1]@));
                            }
                        }
                    }
                }
                if date.is_after(from) {
                    dates.push(date);
                }
            },
            None => {},
        }

        imm_idx += 1;
        if imm_idx >= 4 {
            imm_idx = 0;
            year += 1;
        }
    }

    dates
}

/// `next_imm_dates` skips no IMM month: every date it lists is in an IMM
/// month (March, June, September, December) later than the start's month,
/// each is three months after the one before, and the first is in the
/// earliest IMM month after the start's month (no IMM month `(y, m)` lies
/// strictly between them).
pub proof fn lemma_imm_dates_skip_nothing(from: (int, int, int), k: int, y: int, m: int)
    requires
        valid_date(from),
        0 <= k,
    ensures
        ({
            let d = spec_nth_imm_date(from, k);
            let e = spec_nth_imm_date(from, k + 1);
            &&& (d.1 == 3 || d.1 == 6 || d.1 == 9 || d.1 == 12)
            &&& from.0 * 12 + from.1 < d.0 * 12 + d.1
            &&& e.0 * 12 + e.1 == d.0 * 12 + d.1 + 3
        }),
        (m == 3 || m == 6 || m == 9 || m == 12) && from.0 * 12 + from.1 < y * 12 + m ==> {
            let first = spec_nth_imm_date(from, 0);
            first.0 * 12 + first.1 <= y * 12 + m
        },
{
    lemma_slot_month(imm_slot(from, 0));
    lemma_slot_month(imm_slot(from, k));
    lemma_slot_month(imm_slot(from, k + 1));
}

/// The IMM month of absolute slot `s` (four per year) is `3 s + 3` months
/// into the count `12 y + m`.
proof fn lemma_slot_month(s: int)
    ensures
        12 * (s / 4) + imm_month(s % 4) == 3 * s + 3,
        imm_month(s % 4) == 3 || imm_month(s % 4) == 6 || imm_month(s % 4) == 9 || imm_month(s % 4)
            == 12,
{
}

} // verus!
