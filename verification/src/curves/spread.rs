//! Spread curves: how a spread combines with a base curve.

use vstd::prelude::*;

verus! {

/// Type of spread adjustment.
#[derive(Debug, Clone, Copy, PartialEq, Eq, Hash, Structural)]
pub enum SpreadType {
    /// Additive spread: z_spread(t) = z_base(t) + spread(t)
    ///
    /// This is the most common type, used for Z-spreads and credit spreads.
    Additive,
    /// Multiplicative spread: DF_spread(t) = DF_base(t) * spread_factor(t)
    ///
    /// Used for certain FX and basis adjustments.
    Multiplicative,
}

impl Default for SpreadType {
    fn default() -> (r: Self)
        ensures
            r == SpreadType::Additive,
    {
        SpreadType::Additive
    }
}

impl SpreadType {
    /// Display name.
    pub fn name(&self) -> (r: &'static str)
        ensures
            r@ == (if *self == SpreadType::Additive {
                "Additive"@
            } else {
                "Multiplicative"@
            }),
    {
        match self {
            Self::Additive => "Additive",
            Self::Multiplicative => "Multiplicative",
        }
    }
}

} // verus!
