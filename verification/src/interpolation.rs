//! Interpolation methods for yield curves.

use vstd::prelude::*;

verus! {

/// Interpolation methods for yield curves.
#[derive(Debug, Clone, Copy, PartialEq, Eq, Hash, Structural)]
pub enum InterpolationMethod {
    /// Linear interpolation on zero rates.
    Linear,
    /// Linear interpolation on log discount factors.
    LogLinear,
    /// Cubic spline on zero rates.
    CubicSpline,
    /// Cubic spline on log discount factors.
    CubicSplineOnDiscount,
    /// Monotone convex interpolation (Hagan-West).
    MonotoneConvex,
    /// Nelson-Siegel parametric model.
    NelsonSiegel,
    /// Svensson parametric model.
    Svensson,
    /// Flat forward rates.
    FlatForward,
}

impl Default for InterpolationMethod {
    fn default() -> (r: Self)
        ensures
            r == InterpolationMethod::Linear,
    {
        InterpolationMethod::Linear
    }
}

/// Parametric models: Nelson-Siegel and Svensson.
pub open spec fn spec_is_parametric(m: InterpolationMethod) -> bool {
    m == InterpolationMethod::NelsonSiegel || m == InterpolationMethod::Svensson
}

/// Methods that produce smooth curves: the splines, monotone convex and the
/// parametric models.
pub open spec fn spec_is_smooth(m: InterpolationMethod) -> bool {
    ||| m == InterpolationMethod::CubicSpline
    ||| m == InterpolationMethod::CubicSplineOnDiscount
    ||| m == InterpolationMethod::MonotoneConvex
    ||| m == InterpolationMethod::NelsonSiegel
    ||| m == InterpolationMethod::Svensson
}

/// Display name of an interpolation method.
pub open spec fn spec_method_name(m: InterpolationMethod) -> Seq<char> {
    match m {
        InterpolationMethod::Linear => "Linear"@,
        InterpolationMethod::LogLinear => "Log-Linear"@,
        InterpolationMethod::CubicSpline => "Cubic Spline"@,
        InterpolationMethod::CubicSplineOnDiscount => "Cubic Spline (Discount)"@,
        InterpolationMethod::MonotoneConvex => "Monotone Convex"@,
        InterpolationMethod::NelsonSiegel => "Nelson-Siegel"@,
        InterpolationMethod::Svensson => "Svensson"@,
        InterpolationMethod::FlatForward => "Flat Forward"@,
    }
}

impl InterpolationMethod {
    /// Returns true if this is a parametric model.
    pub fn is_parametric(&self) -> (r: bool)
        ensures
            r == spec_is_parametric(*self),
    {
        matches!(self, Self::NelsonSiegel | Self::Svensson)
    }

    /// Returns true if this method produces smooth curves.
    pub fn is_smooth(&self) -> (r: bool)
        ensures
            r == spec_is_smooth(*self),
    {
        matches!(
            self,
            Self::CubicSpline | Self::CubicSplineOnDiscount | Self::MonotoneConvex
                | Self::NelsonSiegel | Self::Svensson
        )
    }

    /// Display name.
    pub fn name(&self) -> (r: &'static str)
        ensures
            r@ == spec_method_name(*self),
    {
        match self {
            Self::Linear => "Linear",
            Self::LogLinear => "Log-Linear",
            Self::CubicSpline => "Cubic Spline",
            Self::CubicSplineOnDiscount => "Cubic Spline (Discount)",
            Self::MonotoneConvex => "Monotone Convex",
            Self::NelsonSiegel => "Nelson-Siegel",
            Self::Svensson => "Svensson",
            Self::FlatForward => "Flat Forward",
        }
    }
}

/// Every parametric model is smooth.
pub proof fn lemma_parametric_is_smooth(m: InterpolationMethod)
    ensures
        spec_is_parametric(m) ==> spec_is_smooth(m),
{
}

} // verus!
