//! Market quote types for curve instruments.
//!
//! All curve inputs are market observables; this module names how each is
//! quoted (price, yield or rate, and with which compounding).

use vstd::prelude::*;

verus! {

/// How a bond is quoted in the market.
#[derive(Debug, Clone, Copy, PartialEq, Eq, Hash, Structural)]
pub enum BondQuoteType {
    /// Clean price per 100 face (excludes accrued interest)
    CleanPrice,
    /// Yield to maturity (bond equivalent yield for Treasuries)
    YieldToMaturity,
    /// Discount rate (T-bills only, bank discount basis)
    DiscountRate,
    /// Full/dirty price per 100 face (includes accrued interest)
    DirtyPrice,
}

/// The quote is a price (clean or dirty).
pub open spec fn spec_is_price(q: BondQuoteType) -> bool {
    q == BondQuoteType::CleanPrice || q == BondQuoteType::DirtyPrice
}

/// The quote is a rate or yield.
pub open spec fn spec_is_rate(q: BondQuoteType) -> bool {
    q == BondQuoteType::YieldToMaturity || q == BondQuoteType::DiscountRate
}

/// Display name of a bond quote type.
pub open spec fn spec_bond_quote_name(q: BondQuoteType) -> Seq<char> {
    match q {
        BondQuoteType::CleanPrice => "Clean Price"@,
        BondQuoteType::YieldToMaturity => "YTM"@,
        BondQuoteType::DiscountRate => "Discount Rate"@,
        BondQuoteType::DirtyPrice => "Dirty Price"@,
    }
}

impl BondQuoteType {
    /// Returns true if this quote type represents a price.
    pub fn is_price(&self) -> (r: bool)
        ensures
            r == spec_is_price(*self),
    {
        matches!(self, Self::CleanPrice | Self::DirtyPrice)
    }

    /// Returns true if this quote type represents a rate/yield.
    pub fn is_rate(&self) -> (r: bool)
        ensures
            r == spec_is_rate(*self),
    {
        matches!(self, Self::YieldToMaturity | Self::DiscountRate)
    }

    /// Display name.
    pub fn name(&self) -> (r: &'static str)
        ensures
            r@ == spec_bond_quote_name(*self),
    {
        match self {
            Self::CleanPrice => "Clean Price",
            Self::YieldToMaturity => "YTM",
            Self::DiscountRate => "Discount Rate",
            Self::DirtyPrice => "Dirty Price",
        }
    }
}

/// Every bond quote is exactly one of a price and a rate.
pub proof fn lemma_price_xor_rate(q: BondQuoteType)
    ensures
        spec_is_price(q) != spec_is_rate(q),
{
}

/// How a rate instrument is quoted.
#[derive(Debug, Clone, Copy, PartialEq, Eq, Hash, Structural)]
pub enum RateQuoteType {
    /// Simple rate (money market convention)
    Simple,
    /// Continuously compounded rate
    Continuous,
    /// Annually compounded rate
    Annual,
    /// Semi-annually compounded rate
    SemiAnnual,
}

impl Default for RateQuoteType {
    fn default() -> (r: Self)
        ensures
            r == RateQuoteType::Simple,
    {
        RateQuoteType::Simple
    }
}

/// Display name of a rate quote type.
pub open spec fn spec_rate_quote_name(q: RateQuoteType) -> Seq<char> {
    match q {
        RateQuoteType::Simple => "Simple"@,
        RateQuoteType::Continuous => "Continuous"@,
        RateQuoteType::Annual => "Annual"@,
        RateQuoteType::SemiAnnual => "Semi-Annual"@,
    }
}

impl RateQuoteType {
    /// Display name.
    pub fn name(&self) -> (r: &'static str)
        ensures
            r@ == spec_rate_quote_name(*self),
    {
        match self {
            Self::Simple => "Simple",
            Self::Continuous => "Continuous",
            Self::Annual => "Annual",
            Self::SemiAnnual => "Semi-Annual",
        }
    }
}

/// Union of all quote types.
#[derive(Debug, Clone, Copy, PartialEq, Eq, Structural)]
pub enum QuoteType {
    /// Bond quote (price or yield)
    Bond(BondQuoteType),
    /// Rate quote (various compounding)
    Rate(RateQuoteType),
    /// Futures price (100 - rate)
    FuturesPrice,
}

/// Which bound a quote is checked against when market data is validated.
#[derive(Debug, Clone, Copy, PartialEq, Eq, Structural)]
pub enum QuoteCheck {
    /// Rate bounds and the rate bid-ask spread.
    Rate,
    /// Rate bounds only (a yield to maturity).
    Yield,
    /// Price bounds and the price bid-ask spread.
    Price,
}

/// How a quote of type `q` is validated: rates against the rate bounds and
/// spread, a yield to maturity against the rate bounds, other bond quotes
/// and futures prices against the price bounds and spread.
pub open spec fn spec_quote_check(q: QuoteType) -> QuoteCheck {
    match q {
        QuoteType::Rate(_) => QuoteCheck::Rate,
        QuoteType::Bond(BondQuoteType::YieldToMaturity) => QuoteCheck::Yield,
        QuoteType::Bond(_) => QuoteCheck::Price,
        QuoteType::FuturesPrice => QuoteCheck::Price,
    }
}

impl QuoteType {
    /// How a quote of this type is validated.
    pub fn check_kind(&self) -> (r: QuoteCheck)
        ensures
            r == spec_quote_check(*self),
    {
        match self {
            QuoteType::Rate(_) => QuoteCheck::Rate,
            QuoteType::Bond(BondQuoteType::YieldToMaturity) => QuoteCheck::Yield,
            QuoteType::Bond(_) | QuoteType::FuturesPrice => QuoteCheck::Price,
        }
    }
}

} // verus!
