//! Payment frequencies and day count conventions, as the market
//! conventions and schedules of this crate name them.

use vstd::prelude::*;

verus! {

/// Payment frequency of a coupon or fixed leg.
#[derive(Debug, Clone, Copy, PartialEq, Eq, Hash, Structural)]
pub enum Frequency {
    /// Once a year.
    Annual,
    /// Twice a year.
    SemiAnnual,
    /// Four times a year.
    Quarterly,
    /// Twelve times a year.
    Monthly,
    /// No periodic payments (zero coupon).
    Zero,
}

/// Months between two payments (0 for zero coupon).
pub open spec fn spec_months_per_period(f: Frequency) -> int {
    match f {
        Frequency::Annual => 12,
        Frequency::SemiAnnual => 6,
        Frequency::Quarterly => 3,
        Frequency::Monthly => 1,
        Frequency::Zero => 0,
    }
}

/// Payments per year (0 for zero coupon).
pub open spec fn spec_periods_per_year(f: Frequency) -> int {
    match f {
        Frequency::Annual => 1,
        Frequency::SemiAnnual => 2,
        Frequency::Quarterly => 4,
        Frequency::Monthly => 12,
        Frequency::Zero => 0,
    }
}

impl Default for Frequency {
    fn default() -> (r: Self)
        ensures
            r == Frequency::SemiAnnual,
    {
        Frequency::SemiAnnual
    }
}

impl Frequency {
    /// Payments per year (0 for zero coupon).
    pub fn periods_per_year(&self) -> (r: u32)
        ensures
            r == spec_periods_per_year(*self),
    {
        match self {
            Frequency::Annual => 1,
            Frequency::SemiAnnual => 2,
            Frequency::Quarterly => 4,
            Frequency::Monthly => 12,
            Frequency::Zero => 0,
        }
    }

    /// Months between two payments (0 for zero coupon).
    pub fn months_per_period(&self) -> (r: u32)
        ensures
            r == spec_months_per_period(*self),
    {
        match self {
            Frequency::Annual => 12,
            Frequency::SemiAnnual => 6,
            Frequency::Quarterly => 3,
            Frequency::Monthly => 1,
            Frequency::Zero => 0,
        }
    }

    /// Zero coupon (no periodic payments).
    pub fn is_zero(&self) -> (r: bool)
        ensures
            r == (*self == Frequency::Zero),
    {
        matches!(self, Frequency::Zero)
    }
}

/// For every periodic frequency, a period in months times the number of
/// periods makes one year.
pub proof fn lemma_periods_make_a_year(f: Frequency)
    ensures
        f != Frequency::Zero ==> spec_months_per_period(f) * spec_periods_per_year(f) == 12,
        f == Frequency::Zero <==> spec_months_per_period(f) == 0,
{
}

/// Each frequency pays as often as its name says: once (annual), twice
/// (semi-annual), four times (quarterly) or twelve times (monthly) a year,
/// each period being twelve months divided by that count; a zero-coupon
/// frequency has no periods.
pub proof fn lemma_frequency_periods(f: Frequency)
    ensures
        f == Frequency::Annual ==> spec_periods_per_year(f) == 1 && spec_months_per_period(f) == 12,
        f == Frequency::SemiAnnual ==> spec_periods_per_year(f) == 2 && spec_months_per_period(f)
            == 6,
        f == Frequency::Quarterly ==> spec_periods_per_year(f) == 4 && spec_months_per_period(f)
            == 3,
        f == Frequency::Monthly ==> spec_periods_per_year(f) == 12 && spec_months_per_period(f)
            == 1,
        f == Frequency::Zero ==> spec_periods_per_year(f) == 0 && spec_months_per_period(f) == 0,
{
}

/// Day count convention used to turn a pair of dates into a year fraction.
#[derive(Debug, Clone, Copy, PartialEq, Eq, Hash, Structural)]
pub enum DayCountConvention {
    /// Actual/360.
    Act360,
    /// Actual/365 Fixed.
    Act365Fixed,
    /// Actual/365 Leap.
    Act365Leap,
    /// Actual/Actual ISDA.
    ActActIsda,
    /// Actual/Actual ICMA.
    ActActIcma,
    /// Actual/Actual AFB.
    ActActAfb,
    /// 30/360 US.
    Thirty360US,
    /// 30E/360 (Eurobond basis).
    Thirty360E,
    /// 30E/360 ISDA.
    Thirty360EIsda,
    /// 30/360 German.
    Thirty360German,
}

} // verus!
