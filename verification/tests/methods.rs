use convex_curves::bootstrap::global::GlobalCurveType;
use convex_curves::calibration::instruments::InstrumentType as CalibrationInstrumentType;
use convex_curves::compat::InstrumentType as CompatInstrumentType;
use convex_curves::curves::delegated::DelegationFallback;
use convex_curves::curves::spread::SpreadType;
use convex_curves::interpolation::InterpolationMethod as CurveInterpolation;
use convex_curves::{ExtrapolationMethod, InterpolationMethod};

#[test]
fn test_interpolation_method_properties() {
    assert!(InterpolationMethod::MonotoneConvex.guarantees_positive_forwards());
    assert!(InterpolationMethod::LogLinear.guarantees_positive_forwards());
    assert!(!InterpolationMethod::Linear.guarantees_positive_forwards());
    assert!(!InterpolationMethod::CubicSpline.guarantees_positive_forwards());
}

#[test]
fn test_interpolation_continuity() {
    assert_eq!(InterpolationMethod::Linear.continuity_class(), "C0");
    assert_eq!(InterpolationMethod::CubicSpline.continuity_class(), "C2");
    assert_eq!(InterpolationMethod::MonotoneConvex.continuity_class(), "C1");
}

#[test]
fn continuity_of_the_other_methods() {
    assert_eq!(InterpolationMethod::PiecewiseConstant.continuity_class(), "C-1");
    assert_eq!(InterpolationMethod::Svensson.continuity_class(), "C∞");
    assert_eq!(InterpolationMethod::default(), InterpolationMethod::MonotoneConvex);
    assert_eq!(ExtrapolationMethod::default(), ExtrapolationMethod::NoExtrapolation);
}

#[test]
fn curve_interpolation_kinds() {
    assert!(CurveInterpolation::NelsonSiegel.is_parametric());
    assert!(!CurveInterpolation::CubicSpline.is_parametric());
    assert!(CurveInterpolation::CubicSplineOnDiscount.is_smooth());
    assert!(!CurveInterpolation::FlatForward.is_smooth());
    assert!(!CurveInterpolation::Linear.is_smooth());
    assert_eq!(CurveInterpolation::default(), CurveInterpolation::Linear);
    assert_eq!(CurveInterpolation::CubicSplineOnDiscount.name(), "Cubic Spline (Discount)");
    assert_eq!(CurveInterpolation::LogLinear.name(), "Log-Linear");
}

#[test]
fn parametric_methods_are_smooth() {
    for m in [
        CurveInterpolation::Linear,
        CurveInterpolation::LogLinear,
        CurveInterpolation::CubicSpline,
        CurveInterpolation::CubicSplineOnDiscount,
        CurveInterpolation::MonotoneConvex,
        CurveInterpolation::NelsonSiegel,
        CurveInterpolation::Svensson,
        CurveInterpolation::FlatForward,
    ] {
        assert!(!m.is_parametric() || m.is_smooth());
    }
}

#[test]
fn enum_defaults_and_names() {
    assert_eq!(GlobalCurveType::default(), GlobalCurveType::PiecewiseZero);
    assert_eq!(DelegationFallback::default(), DelegationFallback::Trust);
    assert_eq!(SpreadType::default(), SpreadType::Additive);
    assert_eq!(SpreadType::Multiplicative.name(), "Multiplicative");
    assert_eq!(CalibrationInstrumentType::BasisSwap.name(), "Basis Swap");
    assert_eq!(CompatInstrumentType::GovernmentCouponBond.name(), "Govt Coupon");
    assert_eq!(CompatInstrumentType::Fra.name(), "FRA");
}
