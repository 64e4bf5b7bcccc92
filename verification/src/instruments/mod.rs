//! Curve instruments: their taxonomy, the rate indices they reference, and
//! the date logic (tenors, schedules, IMM dates) used to set them up.

pub mod deposit;
pub mod fra;
pub mod future;
pub mod ois;
pub mod quotes;
pub mod swap;
pub mod tbond;

use vstd::prelude::*;

use crate::text::{concat, decimal_text, owned, spec_decimal};

verus! {

/// Instrument type for categorization and sorting: the declaration order
/// is the sort order (shortest-dated instruments first).
#[derive(Debug, Clone, Copy, PartialEq, Eq, Hash, PartialOrd, Ord, Structural)]
pub enum InstrumentType {
    /// Money market deposit (shortest maturity first)
    Deposit,
    /// Forward Rate Agreement
    FRA,
    /// Rate future (SOFR, Eurodollar)
    Future,
    /// Interest Rate Swap
    Swap,
    /// Overnight Index Swap
    OIS,
    /// Basis swap (tenor or cross-currency)
    BasisSwap,
    /// Treasury Bill (discount instrument) - US-specific
    TreasuryBill,
    /// Treasury Note/Bond (coupon instrument) - US-specific
    TreasuryBond,
    /// Generic zero-coupon government bond (any market)
    GovernmentZeroCoupon,
    /// Generic coupon government bond (any market: Gilts, Bunds, JGBs, etc.)
    GovernmentCouponBond,
}

/// Position of an instrument type in the sort order.
pub open spec fn spec_rank(t: InstrumentType) -> int {
    match t {
        InstrumentType::Deposit => 0,
        InstrumentType::FRA => 1,
        InstrumentType::Future => 2,
        InstrumentType::Swap => 3,
        InstrumentType::OIS => 4,
        InstrumentType::BasisSwap => 5,
        InstrumentType::TreasuryBill => 6,
        InstrumentType::TreasuryBond => 7,
        InstrumentType::GovernmentZeroCoupon => 8,
        InstrumentType::GovernmentCouponBond => 9,
    }
}

/// Display name of an instrument type.
pub open spec fn spec_instrument_name(t: InstrumentType) -> Seq<char> {
    match t {
        InstrumentType::Deposit => "Deposit"@,
        InstrumentType::FRA => "FRA"@,
        InstrumentType::Future => "Future"@,
        InstrumentType::Swap => "Swap"@,
        InstrumentType::OIS => "OIS"@,
        InstrumentType::BasisSwap => "BasisSwap"@,
        InstrumentType::TreasuryBill => "T-Bill"@,
        InstrumentType::TreasuryBond => "T-Bond"@,
        InstrumentType::GovernmentZeroCoupon => "Gov Zero"@,
        InstrumentType::GovernmentCouponBond => "Gov Bond"@,
    }
}

impl InstrumentType {
    /// Position in the sort order (deposits first, coupon bonds last).
    pub fn rank(&self) -> (r: u32)
        ensures
            r == spec_rank(*self),
    {
        match self {
            InstrumentType::Deposit => 0,
            InstrumentType::FRA => 1,
            InstrumentType::Future => 2,
            InstrumentType::Swap => 3,
            InstrumentType::OIS => 4,
            InstrumentType::BasisSwap => 5,
            InstrumentType::TreasuryBill => 6,
            InstrumentType::TreasuryBond => 7,
            InstrumentType::GovernmentZeroCoupon => 8,
            InstrumentType::GovernmentCouponBond => 9,
        }
    }

    /// Display name.
    pub fn name(&self) -> (r: &'static str)
        ensures
            r@ == spec_instrument_name(*self),
    {
        match self {
            InstrumentType::Deposit => "Deposit",
            InstrumentType::FRA => "FRA",
            InstrumentType::Future => "Future",
            InstrumentType::Swap => "Swap",
            InstrumentType::OIS => "OIS",
            InstrumentType::BasisSwap => "BasisSwap",
            InstrumentType::TreasuryBill => "T-Bill",
            InstrumentType::TreasuryBond => "T-Bond",
            InstrumentType::GovernmentZeroCoupon => "Gov Zero",
            InstrumentType::GovernmentCouponBond => "Gov Bond",
        }
    }
}

/// The sort order is strict and total: two types share a rank only when
/// they are the same type, and ranks run from 0 to 9.
pub proof fn lemma_rank_injective(a: InstrumentType, b: InstrumentType)
    ensures
        0 <= spec_rank(a) <= 9,
        spec_rank(a) == spec_rank(b) <==> a == b,
{
}

/// A rate index reference (e.g., SOFR, EURIBOR).
#[derive(Debug, Clone, PartialEq, Eq, Hash)]
pub struct RateIndex {
    /// Index name (e.g., "SOFR", "EURIBOR")
    pub name: String,
    /// Tenor in months (e.g., 3 for 3M SOFR)
    pub tenor_months: u32,
    /// Day count convention name
    pub day_count: String,
}

/// Display text of an index: the name, followed by `" <n>M"` for a term
/// index (tenor `n > 0`).
pub open spec fn spec_index_text(name: Seq<char>, tenor_months: nat) -> Seq<char> {
    if tenor_months == 0 {
        name
    } else {
        name + " "@ + spec_decimal(tenor_months) + "M"@
    }
}

impl RateIndex {
    /// Creates a new rate index.
    pub fn new(name: &str, tenor_months: u32, day_count: &str) -> (r: Self)
        ensures
            r.name@ == name@,
            r.tenor_months == tenor_months,
            r.day_count@ == day_count@,
    {
        RateIndex { name: owned(name), tenor_months, day_count: owned(day_count) }
    }

    /// Creates SOFR overnight index.
    pub fn sofr() -> (r: Self)
        ensures
            r.name@ == "SOFR"@,
            r.tenor_months == 0,
            r.day_count@ == "ACT/360"@,
    {
        Self::new("SOFR", 0, "ACT/360")
    }

    /// Creates 1M SOFR index.
    pub fn sofr_1m() -> (r: Self)
        ensures
            r.name@ == "SOFR"@,
            r.tenor_months == 1,
            r.day_count@ == "ACT/360"@,
    {
        Self::new("SOFR", 1, "ACT/360")
    }

    /// Creates 3M SOFR index.
    pub fn sofr_3m() -> (r: Self)
        ensures
            r.name@ == "SOFR"@,
            r.tenor_months == 3,
            r.day_count@ == "ACT/360"@,
    {
        Self::new("SOFR", 3, "ACT/360")
    }

    /// Creates 3M EURIBOR index.
    pub fn euribor_3m() -> (r: Self)
        ensures
            r.name@ == "EURIBOR"@,
            r.tenor_months == 3,
            r.day_count@ == "ACT/360"@,
    {
        Self::new("EURIBOR", 3, "ACT/360")
    }

    /// Creates 6M EURIBOR index.
    pub fn euribor_6m() -> (r: Self)
        ensures
            r.name@ == "EURIBOR"@,
            r.tenor_months == 6,
            r.day_count@ == "ACT/360"@,
    {
        Self::new("EURIBOR", 6, "ACT/360")
    }

    /// Creates SONIA overnight index.
    pub fn sonia() -> (r: Self)
        ensures
            r.name@ == "SONIA"@,
            r.tenor_months == 0,
            r.day_count@ == "ACT/365F"@,
    {
        Self::new("SONIA", 0, "ACT/365F")
    }

    /// Creates ESTR overnight index.
    pub fn estr() -> (r: Self)
        ensures
            r.name@ == "ESTR"@,
            r.tenor_months == 0,
            r.day_count@ == "ACT/360"@,
    {
        Self::new("ESTR", 0, "ACT/360")
    }

    /// Display text: `"SOFR"` for an overnight index, `"SOFR 3M"` for a
    /// three-month one.
    pub fn display_text(&self) -> (r: String)
        ensures
            r@ == spec_index_text(self.name@, self.tenor_months as nat),
    {
        if self.tenor_months == 0 {
            self.name.clone()
        } else {
            let with_space = concat(self.name.as_str(), " ");
            let digits = decimal_text(self.tenor_months as u64);
            let with_number = concat(with_space.as_str(), digits.as_str());
            concat(with_number.as_str(), "M")
        }
    }
}

} // verus!
