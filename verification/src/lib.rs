//! Term-structure building blocks for fixed income curves: instrument and
//! quote taxonomies, market conventions, tenor parsing and date schedules.

pub mod basis;
pub mod bootstrap;
pub mod builder;
pub mod calendars;
pub mod calibration;
pub mod compat;
pub mod conventions;
pub mod curves;
pub mod date;
pub mod error;
pub mod text;
pub mod instruments;
pub mod interpolation;

use vstd::prelude::*;

verus! {

/// Extrapolation methods for curve extension.
#[derive(Debug, Clone, Copy, PartialEq, Eq, Structural)]
pub enum ExtrapolationMethod {
    /// No extrapolation - error if outside range.
    NoExtrapolation,
    /// Flat extrapolation - use boundary value.
    Flat,
    /// Linear extrapolation using boundary slope.
    Linear,
    /// Flat forward - constant instantaneous forward rate.
    FlatForward,
}

impl Default for ExtrapolationMethod {
    fn default() -> (r: Self)
        ensures
            r == ExtrapolationMethod::NoExtrapolation,
    {
        ExtrapolationMethod::NoExtrapolation
    }
}

/// Interpolation method selection for curve construction.
#[derive(Debug, Clone, Copy, PartialEq, Eq, Structural)]
pub enum InterpolationMethod {
    /// Simple linear interpolation.
    Linear,
    /// Log-linear interpolation (for discount factors).
    LogLinear,
    /// Natural cubic spline.
    CubicSpline,
    /// Monotone convex (production default, positive forwards).
    MonotoneConvex,
    /// Piecewise constant (for hazard rates).
    PiecewiseConstant,
    /// Nelson-Siegel parametric model.
    NelsonSiegel,
    /// Svensson parametric model.
    Svensson,
}

impl Default for InterpolationMethod {
    fn default() -> (r: Self)
        ensures
            r == InterpolationMethod::MonotoneConvex,
    {
        InterpolationMethod::MonotoneConvex
    }
}

/// Methods that guarantee positive forward rates: monotone convex and
/// log-linear.
pub open spec fn spec_guarantees_positive_forwards(m: InterpolationMethod) -> bool {
    m == InterpolationMethod::MonotoneConvex || m == InterpolationMethod::LogLinear
}

/// Continuity class of an interpolation method: `C0` continuous values,
/// `C1` continuous first derivative, `C2` continuous second derivative,
/// `C-1` piecewise constant, `C∞` parametric.
pub open spec fn spec_continuity_class(m: InterpolationMethod) -> Seq<char> {
    match m {
        InterpolationMethod::Linear => "C0"@,
        InterpolationMethod::LogLinear => "C0"@,
        InterpolationMethod::CubicSpline => "C2"@,
        InterpolationMethod::MonotoneConvex => "C1"@,
        InterpolationMethod::PiecewiseConstant => "C-1"@,
        InterpolationMethod::NelsonSiegel => "C∞"@,
        InterpolationMethod::Svensson => "C∞"@,
    }
}

impl InterpolationMethod {
    /// Returns true if this method guarantees positive forward rates.
    pub fn guarantees_positive_forwards(&self) -> (r: bool)
        ensures
            r == spec_guarantees_positive_forwards(*self),
    {
        matches!(self, InterpolationMethod::MonotoneConvex | InterpolationMethod::LogLinear)
    }

    /// Returns the continuity class of the interpolation.
    ///
    /// - C0: Continuous values
    /// - C1: Continuous first derivative
    /// - C2: Continuous second derivative
    pub fn continuity_class(&self) -> (r: &'static str)
        ensures
            r@ == spec_continuity_class(*self),
    {
        match self {
            InterpolationMethod::Linear => "C0",
            InterpolationMethod::LogLinear => "C0",
            InterpolationMethod::CubicSpline => "C2",
            InterpolationMethod::MonotoneConvex => "C1",
            InterpolationMethod::PiecewiseConstant => "C-1",
            InterpolationMethod::NelsonSiegel | InterpolationMethod::Svensson => "C∞",
        }
    }
}

} // verus!
