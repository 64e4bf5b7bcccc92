use convex_curves::date::Date;
use convex_curves::error::CurveError;

#[test]
fn error_constructors() {
    let d1 = Date::from_ymd(2024, 1, 1).unwrap();
    let d2 = Date::from_ymd(2024, 1, 2).unwrap();
    assert_eq!(
        CurveError::reference_date_mismatch(d1, d2),
        CurveError::ReferenceDateMismatch { expected: d1, got: d2 }
    );
    assert_eq!(
        CurveError::insufficient_points(2, 1),
        CurveError::InsufficientPoints { required: 2, got: 1 }
    );
    assert_eq!(
        CurveError::invalid_data("bad"),
        CurveError::InvalidData { reason: "bad".to_string() }
    );
    assert_eq!(
        CurveError::curve_not_found("SOFR"),
        CurveError::CurveNotFound { name: "SOFR".to_string() }
    );
    assert_eq!(
        CurveError::incompatible_value_type("DF", "Zero"),
        CurveError::IncompatibleValueType { expected: "DF".to_string(), got: "Zero".to_string() }
    );
    assert!(matches!(CurveError::builder_error("x"), CurveError::BuilderError { .. }));
    assert!(matches!(CurveError::math_error("x"), CurveError::MathError { .. }));
    assert!(matches!(CurveError::invalid_value("x"), CurveError::InvalidValue { .. }));
    assert!(matches!(CurveError::conversion_error("x"), CurveError::ConversionError { .. }));
    assert!(matches!(CurveError::invalid_instrument("x"), CurveError::InvalidInstrument { .. }));
    assert!(matches!(CurveError::interpolation_error("x"), CurveError::InterpolationError { .. }));
}
