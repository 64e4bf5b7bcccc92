//! Delegated curves: fallback behaviour outside the underlying's range.

use vstd::prelude::*;

verus! {

/// Fallback behavior when accessing tenors outside the underlying curve's range.
#[derive(Debug, Clone, Copy, PartialEq, Eq, Structural)]
pub enum DelegationFallback {
    /// Trust that the underlying curve handles all tenors.
    /// Does not check bounds.
    Trust,
    /// Return an error if outside the underlying's range.
    Strict,
    /// Use flat extrapolation at the boundaries.
    FlatExtrapolation,
    /// Clamp tenor to the underlying's valid range.
    Clamp,
}

impl Default for DelegationFallback {
    fn default() -> (r: Self)
        ensures
            r == DelegationFallback::Trust,
    {
        DelegationFallback::Trust
    }
}

} // verus!
