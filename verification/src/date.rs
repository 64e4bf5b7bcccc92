//! Calendar dates.
//!
//! A [`Date`] is a proleptic Gregorian calendar day held as year, month and
//! day.  Calendar arithmetic (adding days, months and years, the day of the
//! week) is done by `convex_core::Date`; the functions here state what each
//! of those operations gives back.

use vstd::prelude::*;

use crate::text::spec_decimal;

verus! {

/// Earliest year a date can carry (the range of the underlying calendar).
pub const MIN_YEAR: i32 = -262143;

/// Latest year a date can carry (the range of the underlying calendar).
pub const MAX_YEAR: i32 = 262142;

/// Gregorian leap-year rule.
pub open spec fn is_leap_year(y: int) -> bool {
    (y % 4 == 0 && y % 100 != 0) || y % 400 == 0
}

/// Number of days in month `m` of year `y` (months outside 1..=12 read as 31).
pub open spec fn days_in_month(y: int, m: int) -> int {
    if m == 2 {
        if is_leap_year(y) {
            29
        } else {
            28
        }
    } else if m == 4 || m == 6 || m == 9 || m == 11 {
        30
    } else {
        31
    }
}

/// A year/month/day triple that names a real calendar day within range.
pub open spec fn valid_ymd(y: int, m: int, d: int) -> bool {
    &&& MIN_YEAR <= y <= MAX_YEAR
    &&& 1 <= m <= 12
    &&& 1 <= d <= days_in_month(y, m)
}

/// The same, for a triple.
pub open spec fn valid_date(v: (int, int, int)) -> bool {
    valid_ymd(v.0, v.1, v.2)
}

/// Chronological order of year/month/day triples.
pub open spec fn ymd_lt(a: (int, int, int), b: (int, int, int)) -> bool {
    ||| a.0 < b.0
    ||| (a.0 == b.0 && a.1 < b.1)
    ||| (a.0 == b.0 && a.1 == b.1 && a.2 < b.2)
}

/// Chronological order, not strict.
pub open spec fn ymd_le(a: (int, int, int), b: (int, int, int)) -> bool {
    a == b || ymd_lt(a, b)
}

/// The smaller of two integers.
pub open spec fn min_int(a: int, b: int) -> int {
    if a <= b {
        a
    } else {
        b
    }
}

/// Days in the years before year `y`, counted from the start of year 1
/// (negative for years before 1).
pub open spec fn days_before_year(y: int) -> int {
    365 * (y - 1) + (y - 1) / 4 - (y - 1) / 100 + (y - 1) / 400
}

/// Days in year `y` before the first of month `m` (1-12).
pub open spec fn days_before_month(y: int, m: int) -> int {
    let leap_day: int = if m > 2 && is_leap_year(y) {
        1
    } else {
        0
    };
    let before: int = if m <= 1 {
        0
    } else if m == 2 {
        31
    } else if m == 3 {
        59
    } else if m == 4 {
        90
    } else if m == 5 {
        120
    } else if m == 6 {
        151
    } else if m == 7 {
        181
    } else if m == 8 {
        212
    } else if m == 9 {
        243
    } else if m == 10 {
        273
    } else if m == 11 {
        304
    } else {
        334
    };
    leap_day + before
}

/// Number of days in year `y`.
pub open spec fn days_in_year(y: int) -> int {
    if is_leap_year(y) {
        366
    } else {
        365
    }
}

/// Day number of a date in the proleptic Gregorian calendar, with
/// January 1 of year 1 as day 1.
#[verifier::opaque]
pub open spec fn days_from_ce(v: (int, int, int)) -> int {
    days_before_year(v.0) + days_before_month(v.0, v.1) + v.2
}

/// Day number of the first day in range.
pub open spec fn first_day_number() -> int {
    days_from_ce((MIN_YEAR as int, 1, 1))
}

/// Day number of the last day in range.
pub open spec fn last_day_number() -> int {
    days_from_ce((MAX_YEAR as int, 12, 31))
}

/// Adding `n` days to `v` lands on a day within the calendar's range.
pub open spec fn add_days_in_range(v: (int, int, int), n: int) -> bool {
    first_day_number() <= days_from_ce(v) + n <= last_day_number()
}

/// The calendar day `n` days after `(y, m, d)` (before it, for negative
/// `n`): the valid date whose day number is `n` more.
pub open spec fn spec_add_days(y: int, m: int, d: int, n: int) -> (int, int, int) {
    choose|r: (int, int, int)| valid_date(r) && days_from_ce(r) == days_from_ce((y, m, d)) + n
}

/// Day of the week of `(y, m, d)`, counted from Monday (Monday is 0);
/// January 1 of year 1 is a Monday.
pub open spec fn spec_weekday(y: int, m: int, d: int) -> int {
    (days_from_ce((y, m, d)) + 6) % 7
}

/// Signed number of calendar days from `(y1, m1, d1)` to `(y2, m2, d2)`.
pub open spec fn spec_days_between(y1: int, m1: int, d1: int, y2: int, m2: int, d2: int) -> int {
    days_from_ce((y2, m2, d2)) - days_from_ce((y1, m1, d1))
}

/// Decimal text of an integer, with a leading `-` when negative.
pub open spec fn signed_decimal(i: int) -> Seq<char> {
    if i < 0 {
        seq!['-'] + spec_decimal((-i) as nat)
    } else {
        spec_decimal(i as nat)
    }
}

/// Decimal text of a non-negative integer, padded to two digits with `0`.
pub open spec fn two_digits(i: int) -> Seq<char> {
    if 0 <= i < 10 {
        seq!['0'] + spec_decimal(i as nat)
    } else {
        signed_decimal(i)
    }
}

/// Text of the error for a date that is out of range: `"Invalid date: "`,
/// then year, month and day as `Y-MM-DD`.
pub open spec fn invalid_date_text(y: int, m: int, d: int) -> Seq<char> {
    seq!['I', 'n', 'v', 'a', 'l', 'i', 'd', ' ', 'd', 'a', 't', 'e', ':', ' '] + signed_decimal(y)
        + seq!['-'] + two_digits(m) + seq!['-'] + two_digits(d)
}

/// Text of the error that month arithmetic reports when the result falls
/// outside the calendar's range: it names the target day.
pub open spec fn spec_add_months_error(y: int, m: int, d: int, k: int) -> Seq<char> {
    let t = month_index_after((y, m, d), k);
    let ny = t / 12;
    let nm = t % 12 + 1;
    invalid_date_text(ny, nm, min_int(d, days_in_month(ny, nm)))
}

/// Text of the error that year arithmetic reports when the result falls
/// outside the calendar's range: it names the target day.
pub open spec fn spec_add_years_error(y: int, m: int, d: int, k: int) -> Seq<char> {
    invalid_date_text(y + k, m, min_int(d, days_in_month(y + k, m)))
}

/// Month index `y * 12 + (m - 1) + k` reached by adding `k` months.
pub open spec fn month_index_after(v: (int, int, int), k: int) -> int {
    v.0 * 12 + v.1 - 1 + k
}

/// Adding `k` months runs without fault: the month index fits in an `i32`
/// and, when negative, is a whole number of years (otherwise the month
/// computed from it is out of range and the operation panics).
pub open spec fn add_months_defined(v: (int, int, int), k: int) -> bool {
    let t = month_index_after(v, k);
    &&& i32::MIN <= t <= i32::MAX
    &&& (t >= 0 || t % 12 == 0)
}

/// Result of adding `k` months: the day is clamped to the length of the
/// target month; `None` when the target year is out of range.
pub open spec fn add_months_result(v: (int, int, int), k: int) -> Option<(int, int, int)> {
    let t = month_index_after(v, k);
    let ny = t / 12;
    let nm = t % 12 + 1;
    let nd = min_int(v.2, days_in_month(ny, nm));
    if MIN_YEAR <= ny <= MAX_YEAR {
        Some((ny, nm, nd))
    } else {
        None
    }
}

/// Adding `k` years runs without fault: the year fits in an `i32`.
pub open spec fn add_years_defined(v: (int, int, int), k: int) -> bool {
    i32::MIN <= v.0 + k <= i32::MAX
}

/// Result of adding `k` years: same month, day clamped to its length;
/// `None` when the target year is out of range.
pub open spec fn add_years_result(v: (int, int, int), k: int) -> Option<(int, int, int)> {
    let ny = v.0 + k;
    let nd = min_int(v.2, days_in_month(ny, v.1));
    if MIN_YEAR <= ny <= MAX_YEAR {
        Some((ny, v.1, nd))
    } else {
        None
    }
}

/// A calendar day.
#[derive(Debug, Clone, Copy, PartialEq, Eq, PartialOrd, Ord, Hash)]
pub struct Date {
    pub(crate) year: i32,
    pub(crate) month: u32,
    pub(crate) day: u32,
}

/// The error a date operation reports, with its message.
#[derive(Debug, Clone, PartialEq, Eq)]
pub struct DateError {
    /// Description of the failure.
    pub message: String,
}

impl View for Date {
    type V = (int, int, int);

    closed spec fn view(&self) -> (int, int, int) {
        (self.year as int, self.month as int, self.day as int)
    }
}

impl Date {
    #[verifier::type_invariant]
    spec fn wf(self) -> bool {
        valid_ymd(self.year as int, self.month as int, self.day as int)
    }

    /// Makes a date from year, month (1-12) and day (1-31); `None` when the
    /// triple names no calendar day in range.
    pub fn from_ymd(year: i32, month: u32, day: u32) -> (r: Option<Date>)
        ensures
            r is Some <==> valid_ymd(year as int, month as int, day as int),
            r matches Some(d) ==> d@ == (year as int, month as int, day as int),
    {
        outside_from_ymd(year, month, day)
    }

    /// The year.
    pub fn year(&self) -> (r: i32)
        ensures
            r == self@.0,
            valid_date(self@),
    {
        proof {
            use_type_invariant(self);
        }
        self.year
    }

    /// The month (1-12).
    pub fn month(&self) -> (r: u32)
        ensures
            r == self@.1,
            valid_date(self@),
    {
        proof {
            use_type_invariant(self);
        }
        self.month
    }

    /// The day of the month (1-31).
    pub fn day(&self) -> (r: u32)
        ensures
            r == self@.2,
            valid_date(self@),
    {
        proof {
            use_type_invariant(self);
        }
        self.day
    }

    /// Strictly earlier than `other`.
    pub fn is_before(&self, other: &Date) -> (r: bool)
        ensures
            r == ymd_lt(self@, other@),
            valid_date(self@),
            valid_date(other@),
    {
        proof {
            use_type_invariant(self);
            use_type_invariant(other);
        }
        if self.year != other.year {
            self.year < other.year
        } else if self.month != other.month {
            self.month < other.month
        } else {
            self.day < other.day
        }
    }

    /// Strictly later than `other`.
    pub fn is_after(&self, other: &Date) -> (r: bool)
        ensures
            r == ymd_lt(other@, self@),
            valid_date(self@),
            valid_date(other@),
    {
        other.is_before(self)
    }

    /// Same calendar day as `other`.
    pub fn same_day(&self, other: &Date) -> (r: bool)
        ensures
            r == (self@ == other@),
            valid_date(self@),
            valid_date(other@),
    {
        proof {
            use_type_invariant(self);
            use_type_invariant(other);
        }
        self.year == other.year && self.month == other.month && self.day == other.day
    }

    /// Day of the week, counted from Monday (Monday is 0, Sunday is 6).
    pub fn weekday(&self) -> (r: u32)
        ensures
            r == spec_weekday(self@.0, self@.1, self@.2),
            r < 7,
            forall|d2: int|
                1 <= d2 <= days_in_month(self@.0, self@.1) ==> #[trigger] spec_weekday(
                    self@.0,
                    self@.1,
                    d2,
                ) == (r + d2 - self@.2) % 7,
    {
        proof {
            use_type_invariant(self);
            assert forall|d2: int| 1 <= d2 <= days_in_month(self@.0, self@.1) implies #[trigger]
                spec_weekday(self@.0, self@.1, d2) == (spec_weekday(self@.0, self@.1, self@.2)
                    + d2 - self@.2) % 7 by {
                lemma_same_month(self@, d2);
            }
        }
        outside_weekday(self)
    }

    /// Number of calendar days from this date to `other` (negative when
    /// `other` is earlier).
    pub fn days_between(&self, other: &Date) -> (r: i64)
        ensures
            r == spec_days_between(self@.0, self@.1, self@.2, other@.0, other@.1, other@.2),
            self@ == other@ ==> r == 0,
            ymd_lt(self@, other@) ==> r > 0,
            ymd_lt(other@, self@) ==> r < 0,
            self@.0 == other@.0 && self@.1 == other@.1 ==> r == other@.2 - self@.2,
    {
        proof {
            use_type_invariant(self);
            use_type_invariant(other);
            lemma_days_from_ce_order(self@, other@);
            lemma_days_from_ce_order(other@, self@);
            if self@.0 == other@.0 && self@.1 == other@.1 {
                lemma_same_month(self@, other@.2);
            }
        }
        outside_days_between(self, other)
    }

    /// The date `days` days later (earlier, when negative).
    pub fn add_days(&self, days: i64) -> (r: Date)
        requires
            add_days_in_range(self@, days as int),
        ensures
            r@ == spec_add_days(self@.0, self@.1, self@.2, days as int),
            valid_date(r@),
            valid_date(self@),
            days_from_ce(r@) == days_from_ce(self@) + days,
            0 <= days && self@.2 + days <= days_in_month(self@.0, self@.1) ==> r@ == (
                self@.0,
                self@.1,
                self@.2 + days,
            ),
            days > 0 ==> ymd_lt(self@, r@),
            days < 0 ==> ymd_lt(r@, self@),
            days == 0 ==> r@ == self@,
    {
        proof {
            use_type_invariant(self);
        }
        let r = outside_add_days(self, days);
        proof {
            use_type_invariant(&r);
            lemma_add_days_unique(self@, days as int, r@);
            lemma_days_from_ce_order(self@, r@);
            lemma_days_from_ce_order(r@, self@);
            if 0 <= days && self@.2 + days <= days_in_month(self@.0, self@.1) {
                let t = (self@.0, self@.1, self@.2 + days);
                lemma_same_month(self@, t.2);
                lemma_days_from_ce_injective(t, r@);
            }
        }
        r
    }

    /// The date `months` months later (earlier, when negative), with the
    /// day clamped to the length of the target month.
    pub fn add_months(&self, months: i32) -> (r: Result<Date, DateError>)
        requires
            add_months_defined(self@, months as int),
        ensures
            valid_date(self@),
            r is Ok <==> add_months_result(self@, months as int) is Some,
            r matches Ok(d) ==> Some(d@) == add_months_result(self@, months as int),
            r matches Err(e) ==> e.message@ == spec_add_months_error(
                self@.0,
                self@.1,
                self@.2,
                months as int,
            ),
    {
        proof {
            use_type_invariant(self);
        }
        match outside_add_months(self, months) {
            Ok(d) => Ok(d),
            Err(message) => Err(DateError { message }),
        }
    }

    /// The date `years` years later (earlier, when negative), with the day
    /// clamped to the length of the month in the target year.
    pub fn add_years(&self, years: i32) -> (r: Result<Date, DateError>)
        requires
            add_years_defined(self@, years as int),
        ensures
            valid_date(self@),
            r is Ok <==> add_years_result(self@, years as int) is Some,
            r matches Ok(d) ==> Some(d@) == add_years_result(self@, years as int),
            r matches Err(e) ==> e.message@ == spec_add_years_error(
                self@.0,
                self@.1,
                self@.2,
                years as int,
            ),
    {
        proof {
            use_type_invariant(self);
        }
        match outside_add_years(self, years) {
            Ok(d) => Ok(d),
            Err(message) => Err(DateError { message }),
        }
    }
}

/// Calls `convex_core::Date::from_ymd`, which defers to chrono's
/// `NaiveDate::from_ymd_opt`: it accepts exactly the calendar days of the
/// years `MIN_YEAR..=MAX_YEAR`, and the date it makes has the given year,
/// month and day.
#[verifier::external_body]
fn outside_from_ymd(year: i32, month: u32, day: u32) -> (r: Option<Date>)
    ensures
        r is Some <==> valid_ymd(year as int, month as int, day as int),
        r matches Some(d) ==> d@ == (year as int, month as int, day as int),
{
    match convex_core::Date::from_ymd(year, month, day) {
        Ok(x) => Some(Date { year: x.year(), month: x.month(), day: x.day() }),
        Err(_) => None,
    }
}

/// Calls `convex_core::Date::weekday` and chrono's `num_days_from_monday`:
/// the day of the week counted from Monday, which is the day number
/// (January 1 of year 1, a Monday, is day 1) plus 6, modulo 7.
#[verifier::external_body]
fn outside_weekday(date: &Date) -> (r: u32)
    ensures
        r == spec_weekday(date@.0, date@.1, date@.2),
{
    let x = convex_core::Date::from_ymd(date.year, date.month, date.day).expect("a valid date");
    x.weekday().num_days_from_monday()
}

/// Calls `convex_core::Date::days_between` (chrono's date difference in
/// whole days): the day number of `b` less that of `a`.
#[verifier::external_body]
fn outside_days_between(a: &Date, b: &Date) -> (r: i64)
    ensures
        r == spec_days_between(a@.0, a@.1, a@.2, b@.0, b@.1, b@.2),
{
    let x = convex_core::Date::from_ymd(a.year, a.month, a.day).expect("a valid date");
    let y = convex_core::Date::from_ymd(b.year, b.month, b.day).expect("a valid date");
    x.days_between(&y)
}

/// Calls `convex_core::Date::add_days` (chrono date plus a whole number of
/// days): the date whose day number is `days` more.  Chrono panics when
/// that day is outside its range; `add_days_in_range` says it is inside.
#[verifier::external_body]
fn outside_add_days(date: &Date, days: i64) -> (r: Date)
    requires
        add_days_in_range(date@, days as int),
    ensures
        days_from_ce(r@) == days_from_ce(date@) + days,
{
    let x = convex_core::Date::from_ymd(date.year, date.month, date.day).expect("a valid date");
    let y = x.add_days(days);
    Date { year: y.year(), month: y.month(), day: y.day() }
}

/// Calls `convex_core::Date::add_months`.  Its source computes the month
/// index `year * 12 + month - 1 + months` in `i32`, splits it with `/` and
/// `%` by 12, clamps the day to the target month and calls `from_ymd`; the
/// contract restates that.  On failure the error is `ConvexError`'s
/// `InvalidDate` text for the target day, `spec_add_months_error`.
#[verifier::external_body]
fn outside_add_months(date: &Date, months: i32) -> (r: Result<Date, String>)
    requires
        valid_date(date@),
        add_months_defined(date@, months as int),
    ensures
        r is Ok <==> add_months_result(date@, months as int) is Some,
        r matches Ok(d) ==> Some(d@) == add_months_result(date@, months as int),
        r matches Err(e) ==> e@ == spec_add_months_error(
            date@.0,
            date@.1,
            date@.2,
            months as int,
        ),
{
    let x = convex_core::Date::from_ymd(date.year, date.month, date.day).expect("a valid date");
    match x.add_months(months) {
        Ok(y) => Ok(Date { year: y.year(), month: y.month(), day: y.day() }),
        Err(e) => Err(e.to_string()),
    }
}

/// Calls `convex_core::Date::add_years`.  Its source adds the years in
/// `i32`, keeps the month, clamps the day to the month's length in the new
/// year and calls `from_ymd`; the contract restates that.  On failure the
/// error is `ConvexError`'s `InvalidDate` text for the target day,
/// `spec_add_years_error`.
#[verifier::external_body]
fn outside_add_years(date: &Date, years: i32) -> (r: Result<Date, String>)
    requires
        valid_date(date@),
        add_years_defined(date@, years as int),
    ensures
        r is Ok <==> add_years_result(date@, years as int) is Some,
        r matches Ok(d) ==> Some(d@) == add_years_result(date@, years as int),
        r matches Err(e) ==> e@ == spec_add_years_error(date@.0, date@.1, date@.2, years as int),
{
    let x = convex_core::Date::from_ymd(date.year, date.month, date.day).expect("a valid date");
    match x.add_years(years) {
        Ok(y) => Ok(Date { year: y.year(), month: y.month(), day: y.day() }),
        Err(e) => Err(e.to_string()),
    }
}

/// `k` divides `y`, for `k` one of 4, 100 and 400.
fn divides(k: i64, y: i32) -> (r: bool)
    requires
        k == 4 || k == 100 || k == 400,
    ensures
        r == (y as int % k as int == 0),
{
    // Shift by a multiple of 400 to take the remainder of a non-negative number.
    let shifted: i64 = y as i64 + 2_147_484_000;
    shifted % k == 0
}

/// Day number of a valid date, as `days_from_ce` counts it.
fn day_number(y: i32, m: u32, d: u32) -> (r: i64)
    requires
        valid_ymd(y as int, m as int, d as int),
    ensures
        r == days_from_ce((y as int, m as int, d as int)),
{
    proof {
        reveal(days_from_ce);
    }
    // Shift by a multiple of 400 years so that the divisions work on a
    // non-negative number.
    let a: i64 = y as i64 - 1 + 400_000;
    let before_year: i64 = 365 * (y as i64 - 1) + (a / 4 - 100_000) - (a / 100 - 4_000) + (a / 400
        - 1_000);
    let before_month: i64 = if m == 1 {
        0
    } else if m == 2 {
        31
    } else if m == 3 {
        59
    } else if m == 4 {
        90
    } else if m == 5 {
        120
    } else if m == 6 {
        151
    } else if m == 7 {
        181
    } else if m == 8 {
        212
    } else if m == 9 {
        243
    } else if m == 10 {
        273
    } else if m == 11 {
        304
    } else {
        334
    };
    let leap_day: i64 = if m > 2 && ((divides(4, y) && !divides(100, y)) || divides(400, y)) {
        1
    } else {
        0
    };
    before_year + before_month + leap_day + d as i64
}

/// Number of days in month `month` of `year` (1-12).
pub fn days_in_month_of(year: i32, month: u32) -> (r: u32)
    requires
        1 <= month <= 12,
    ensures
        r == days_in_month(year as int, month as int),
{
    if month == 2 {
        if (divides(4, year) && !divides(100, year)) || divides(400, year) {
            29
        } else {
            28
        }
    } else if month == 4 || month == 6 || month == 9 || month == 11 {
        30
    } else {
        31
    }
}

impl Date {
    /// Whether `add_days(days)` is within its precondition.
    pub fn can_add_days(&self, days: i64) -> (r: bool)
        ensures
            r == add_days_in_range(self@, days as int),
    {
        proof {
            use_type_invariant(self);
        }
        let n = day_number(self.year, self.month, self.day) as i128 + days as i128;
        let first = day_number(MIN_YEAR, 1, 1) as i128;
        let last = day_number(MAX_YEAR, 12, 31) as i128;
        first <= n && n <= last
    }

    /// Whether `add_months(months)` is within its precondition.
    pub fn can_add_months(&self, months: i32) -> (r: bool)
        ensures
            r == add_months_defined(self@, months as int),
    {
        proof {
            use_type_invariant(self);
        }
        let t: i64 = (self.year as i64) * 12 + (self.month as i64) - 1 + (months as i64);
        (i32::MIN as i64) <= t && t <= (i32::MAX as i64) && (t >= 0 || t % 12 == 0)
    }

    /// Whether `add_years(years)` is within its precondition.
    pub fn can_add_years(&self, years: i32) -> (r: bool)
        ensures
            r == add_years_defined(self@, years as int),
    {
        let t: i64 = (self.year as i64) + (years as i64);
        (i32::MIN as i64) <= t && t <= (i32::MAX as i64)
    }
}

/// Moving a valid date by a positive number of months gives a later date,
/// by a negative number an earlier one (when the result is in range).
pub proof fn lemma_add_months_direction(v: (int, int, int), k: int)
    requires
        valid_date(v),
        add_months_defined(v, k),
        add_months_result(v, k) is Some,
    ensures
        k > 0 ==> ymd_lt(v, add_months_result(v, k)->0),
        k < 0 ==> ymd_lt(add_months_result(v, k)->0, v),
        k == 0 ==> add_months_result(v, k)->0 == v,
{
    let t = month_index_after(v, k);
    let r = add_months_result(v, k)->0;
    assert(r.0 * 12 + r.1 - 1 == t);
    assert(1 <= r.1 <= 12);
}

/// Moving a valid date by a positive number of years gives a later date,
/// by a negative number an earlier one (when the result is in range).
pub proof fn lemma_add_years_direction(v: (int, int, int), k: int)
    requires
        valid_date(v),
        add_years_result(v, k) is Some,
    ensures
        k > 0 ==> ymd_lt(v, add_years_result(v, k)->0),
        k < 0 ==> ymd_lt(add_years_result(v, k)->0, v),
        k == 0 ==> add_years_result(v, k)->0 == v,
{
}

/// A year's days follow on from those before it.
proof fn lemma_year_step(y: int)
    ensures
        days_before_year(y + 1) == days_before_year(y) + days_in_year(y),
{
}

/// Years in order are laid out in order.
proof fn lemma_year_order(y1: int, y2: int)
    requires
        y1 < y2,
    ensures
        days_before_year(y1) + days_in_year(y1) <= days_before_year(y2),
    decreases y2 - y1,
{
    lemma_year_step(y1);
    if y1 + 1 < y2 {
        lemma_year_order(y1 + 1, y2);
    }
}

/// The day number of a valid date falls within its year.
proof fn lemma_within_year(v: (int, int, int))
    requires
        valid_date(v),
    ensures
        days_before_year(v.0) < days_from_ce(v) <= days_before_year(v.0) + days_in_year(v.0),
{
    reveal(days_from_ce);
}

/// Moving within a month moves the day number by the same amount.
pub proof fn lemma_same_month(v: (int, int, int), d2: int)
    ensures
        days_from_ce((v.0, v.1, d2)) == days_from_ce(v) + d2 - v.2,
{
    reveal(days_from_ce);
}

/// Day numbers follow the order of valid dates.
pub proof fn lemma_days_from_ce_order(a: (int, int, int), b: (int, int, int))
    requires
        valid_date(a),
        valid_date(b),
    ensures
        ymd_lt(a, b) ==> days_from_ce(a) < days_from_ce(b),
{
    if ymd_lt(a, b) {
        if a.0 < b.0 {
            lemma_within_year(a);
            lemma_within_year(b);
            lemma_year_order(a.0, b.0);
        } else {
            reveal(days_from_ce);
            assert(days_before_month(a.0, a.1) + days_in_month(a.0, a.1) <= days_before_month(
                b.0,
                b.1,
            ) || a.1 == b.1);
        }
    }
}

/// Two valid dates with the same day number are the same date.
pub proof fn lemma_days_from_ce_injective(a: (int, int, int), b: (int, int, int))
    requires
        valid_date(a),
        valid_date(b),
        days_from_ce(a) == days_from_ce(b),
    ensures
        a == b,
{
    lemma_days_from_ce_order(a, b);
    lemma_days_from_ce_order(b, a);
}

/// Every valid date has a day number in range.
pub proof fn lemma_day_number_in_range(v: (int, int, int))
    requires
        valid_date(v),
    ensures
        first_day_number() <= days_from_ce(v) <= last_day_number(),
{
    let first = (MIN_YEAR as int, 1int, 1int);
    let last = (MAX_YEAR as int, 12int, 31int);
    lemma_days_from_ce_order(first, v);
    lemma_days_from_ce_order(v, last);
}

/// A move that stays within the month is in range.
pub proof fn lemma_in_month_in_range(v: (int, int, int), n: int)
    requires
        valid_date(v),
        0 <= n,
        v.2 + n <= days_in_month(v.0, v.1),
    ensures
        add_days_in_range(v, n),
{
    lemma_same_month(v, v.2 + n);
    lemma_day_number_in_range((v.0, v.1, v.2 + n));
}

/// A valid date with the day number `n` more than that of `v` is the date
/// `spec_add_days` names.
pub proof fn lemma_add_days_unique(v: (int, int, int), n: int, r: (int, int, int))
    requires
        valid_date(r),
        days_from_ce(r) == days_from_ce(v) + n,
    ensures
        spec_add_days(v.0, v.1, v.2, n) == r,
{
    let c = spec_add_days(v.0, v.1, v.2, n);
    assert(valid_date(c) && days_from_ce(c) == days_from_ce((v.0, v.1, v.2)) + n);
    lemma_days_from_ce_injective(c, r);
}

/// The year holding day number `t`, searched upward from `y0`.
proof fn year_of_day_number(y0: int, t: int) -> (y: int)
    requires
        days_before_year(y0) < t,
    ensures
        y0 <= y,
        days_before_year(y) < t <= days_before_year(y) + days_in_year(y),
    decreases t - days_before_year(y0),
{
    lemma_year_step(y0);
    if t <= days_before_year(y0) + days_in_year(y0) {
        y0
    } else {
        year_of_day_number(y0 + 1, t)
    }
}

/// The month of year `y` holding its `o`-th day.
spec fn month_of_ordinal(y: int, o: int) -> int {
    if o <= days_before_month(y, 2) {
        1
    } else if o <= days_before_month(y, 3) {
        2
    } else if o <= days_before_month(y, 4) {
        3
    } else if o <= days_before_month(y, 5) {
        4
    } else if o <= days_before_month(y, 6) {
        5
    } else if o <= days_before_month(y, 7) {
        6
    } else if o <= days_before_month(y, 8) {
        7
    } else if o <= days_before_month(y, 9) {
        8
    } else if o <= days_before_month(y, 10) {
        9
    } else if o <= days_before_month(y, 11) {
        10
    } else if o <= days_before_month(y, 12) {
        11
    } else {
        12
    }
}

/// Every day number in range is the day number of a valid date.
proof fn date_with_day_number(t: int) -> (r: (int, int, int))
    requires
        first_day_number() <= t <= last_day_number(),
    ensures
        valid_date(r),
        days_from_ce(r) == t,
{
    reveal(days_from_ce);
    let y = year_of_day_number(MIN_YEAR as int, t);
    if y > MAX_YEAR {
        lemma_year_order(MAX_YEAR as int, y);
    }
    let o = t - days_before_year(y);
    let m = month_of_ordinal(y, o);
    let d = o - days_before_month(y, m);
    (y, m, d)
}

/// Adding `n` days to a date is defined exactly when the day `n` days
/// away is in range, and then it is the valid date `n` day numbers away.
pub proof fn lemma_add_days_exists(v: (int, int, int), n: int)
    requires
        add_days_in_range(v, n),
    ensures
        valid_date(spec_add_days(v.0, v.1, v.2, n)),
        days_from_ce(spec_add_days(v.0, v.1, v.2, n)) == days_from_ce(v) + n,
{
    let r = date_with_day_number(days_from_ce(v) + n);
    lemma_add_days_unique(v, n, r);
}

/// Adding `n` days and then counting the days between gives back `n`;
/// the weekday moves on by `n` places; and adding `-n` days returns to the
/// start.
pub proof fn lemma_add_days_laws(v: (int, int, int), n: int)
    requires
        valid_date(v),
        add_days_in_range(v, n),
    ensures
        ({
            let r = spec_add_days(v.0, v.1, v.2, n);
            &&& valid_date(r)
            &&& spec_days_between(v.0, v.1, v.2, r.0, r.1, r.2) == n
            &&& spec_weekday(r.0, r.1, r.2) == (spec_weekday(v.0, v.1, v.2) + n) % 7
            &&& add_days_in_range(r, -n)
            &&& spec_add_days(r.0, r.1, r.2, -n) == v
        }),
{
    lemma_add_days_exists(v, n);
    let r = spec_add_days(v.0, v.1, v.2, n);
    assert(days_from_ce((v.0, v.1, v.2)) == days_from_ce(v));
    assert(days_from_ce((r.0, r.1, r.2)) == days_from_ce(r));
    lemma_day_number_in_range(v);
    lemma_add_days_unique(r, -n, v);
}

/// The days between two dates add up along a third.
pub proof fn lemma_days_between_add(a: (int, int, int), b: (int, int, int), c: (int, int, int))
    ensures
        spec_days_between(a.0, a.1, a.2, c.0, c.1, c.2) == spec_days_between(a.0, a.1, a.2, b.0, b.1, b.2)
            + spec_days_between(b.0, b.1, b.2, c.0, c.1, c.2),
{
}

} // verus!
