//! Global bootstrap: the kind of curve fitted.

use vstd::prelude::*;

verus! {

/// Type of curve to fit in global bootstrap.
#[derive(Debug, Clone, Copy, PartialEq, Eq, Structural)]
pub enum GlobalCurveType {
    /// Piecewise zero rates at pillar points (most flexible).
    PiecewiseZero,
    /// Piecewise discount factors at pillar points.
    PiecewiseDiscount,
}

impl Default for GlobalCurveType {
    fn default() -> (r: Self)
        ensures
            r == GlobalCurveType::PiecewiseZero,
    {
        GlobalCurveType::PiecewiseZero
    }
}

} // verus!
