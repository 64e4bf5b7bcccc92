//! Instrument taxonomy kept for callers of the earlier curve API.

use vstd::prelude::*;

verus! {

/// Type of curve calibration instrument.
#[derive(Debug, Clone, Copy, PartialEq, Eq, Hash, Structural)]
pub enum InstrumentType {
    /// Cash deposit
    Deposit,
    /// Forward rate agreement
    Fra,
    /// Interest rate future
    Future,
    /// Interest rate swap
    Swap,
    /// Overnight index swap
    Ois,
    /// Basis swap
    BasisSwap,
    /// Zero-coupon government bond
    GovernmentZeroCoupon,
    /// Fixed coupon government bond
    GovernmentCouponBond,
    /// Treasury bill
    TBill,
    /// Other instrument type
    Other,
}

/// Display name of a calibration instrument type.
pub open spec fn spec_instrument_name(t: InstrumentType) -> Seq<char> {
    match t {
        InstrumentType::Deposit => "Deposit"@,
        InstrumentType::Fra => "FRA"@,
        InstrumentType::Future => "Future"@,
        InstrumentType::Swap => "Swap"@,
        InstrumentType::Ois => "OIS"@,
        InstrumentType::BasisSwap => "Basis Swap"@,
        InstrumentType::GovernmentZeroCoupon => "Govt Zero"@,
        InstrumentType::GovernmentCouponBond => "Govt Coupon"@,
        InstrumentType::TBill => "T-Bill"@,
        InstrumentType::Other => "Other"@,
    }
}

impl InstrumentType {
    /// Display name.
    pub fn name(&self) -> (r: &'static str)
        ensures
            r@ == spec_instrument_name(*self),
    {
        match self {
            InstrumentType::Deposit => "Deposit",
            InstrumentType::Fra => "FRA",
            InstrumentType::Future => "Future",
            InstrumentType::Swap => "Swap",
            InstrumentType::Ois => "OIS",
            InstrumentType::BasisSwap => "Basis Swap",
            InstrumentType::GovernmentZeroCoupon => "Govt Zero",
            InstrumentType::GovernmentCouponBond => "Govt Coupon",
            InstrumentType::TBill => "T-Bill",
            InstrumentType::Other => "Other",
        }
    }
}

} // verus!
