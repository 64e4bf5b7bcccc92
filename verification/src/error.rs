//! Error types for curve operations.

use vstd::prelude::*;

use crate::date::Date;
use crate::text::owned;

verus! {

/// Error types for curve operations.
///
/// The variants that carry tenors or residuals as floating-point numbers
/// live with the numerical code outside this library; the ones here carry
/// dates, counts and messages.
#[allow(inconsistent_fields)]
#[derive(Debug, Clone, PartialEq, Eq)]
pub enum CurveError {
    /// Reference dates between curves don't match.
    ReferenceDateMismatch {
        /// Expected reference date.
        expected: Date,
        /// Actual reference date.
        got: Date,
    },
    /// Value types are incompatible for the requested operation.
    IncompatibleValueType {
        /// Expected value type.
        expected: String,
        /// Actual value type.
        got: String,
    },
    /// Interpolation failed.
    InterpolationError {
        /// Description of the interpolation error.
        reason: String,
    },
    /// Not enough data points for interpolation.
    InsufficientPoints {
        /// Minimum required points.
        required: usize,
        /// Actual number of points provided.
        got: usize,
    },
    /// Invalid calibration instrument.
    InvalidInstrument {
        /// Description of what's wrong with the instrument.
        reason: String,
    },
    /// Conversion error between value types.
    ConversionError {
        /// Description of the conversion failure.
        reason: String,
    },
    /// Invalid value (NaN, Inf, or domain error).
    InvalidValue {
        /// Description of why value is invalid.
        reason: String,
    },
    /// Mathematical error.
    MathError {
        /// Description of the mathematical error.
        reason: String,
    },
    /// Builder error.
    BuilderError {
        /// Description of the builder error.
        reason: String,
    },
    /// Curve not found in environment.
    CurveNotFound {
        /// Name/identifier of the missing curve.
        name: String,
    },
    /// Invalid market or instrument data (tenors, quotes, dates).
    InvalidData {
        /// Description of the problem.
        reason: String,
    },
}

/// A specialized Result type for curve operations.
pub type CurveResult<T> = Result<T, CurveError>;

impl CurveError {
    /// Creates a reference date mismatch error.
    pub fn reference_date_mismatch(expected: Date, got: Date) -> (r: Self)
        ensures
            r == (CurveError::ReferenceDateMismatch { expected, got }),
    {
        CurveError::ReferenceDateMismatch { expected, got }
    }

    /// Creates an incompatible value type error.
    pub fn incompatible_value_type(expected: &str, got: &str) -> (r: Self)
        ensures
            r matches CurveError::IncompatibleValueType { expected: e, got: g } && e@ == expected@
                && g@ == got@,
    {
        CurveError::IncompatibleValueType { expected: owned(expected), got: owned(got) }
    }

    /// Creates an interpolation error.
    pub fn interpolation_error(reason: &str) -> (r: Self)
        ensures
            r matches CurveError::InterpolationError { reason: m } && m@ == reason@,
    {
        CurveError::InterpolationError { reason: owned(reason) }
    }

    /// Creates an insufficient points error.
    pub fn insufficient_points(required: usize, got: usize) -> (r: Self)
        ensures
            r == (CurveError::InsufficientPoints { required, got }),
    {
        CurveError::InsufficientPoints { required, got }
    }

    /// Creates an invalid instrument error.
    pub fn invalid_instrument(reason: &str) -> (r: Self)
        ensures
            r matches CurveError::InvalidInstrument { reason: m } && m@ == reason@,
    {
        CurveError::InvalidInstrument { reason: owned(reason) }
    }

    /// Creates a conversion error.
    pub fn conversion_error(reason: &str) -> (r: Self)
        ensures
            r matches CurveError::ConversionError { reason: m } && m@ == reason@,
    {
        CurveError::ConversionError { reason: owned(reason) }
    }

    /// Creates an invalid value error.
    pub fn invalid_value(reason: &str) -> (r: Self)
        ensures
            r matches CurveError::InvalidValue { reason: m } && m@ == reason@,
    {
        CurveError::InvalidValue { reason: owned(reason) }
    }

    /// Creates a math error.
    pub fn math_error(reason: &str) -> (r: Self)
        ensures
            r matches CurveError::MathError { reason: m } && m@ == reason@,
    {
        CurveError::MathError { reason: owned(reason) }
    }

    /// Creates a builder error.
    pub fn builder_error(reason: &str) -> (r: Self)
        ensures
            r matches CurveError::BuilderError { reason: m } && m@ == reason@,
    {
        CurveError::BuilderError { reason: owned(reason) }
    }

    /// Creates a curve not found error.
    pub fn curve_not_found(name: &str) -> (r: Self)
        ensures
            r matches CurveError::CurveNotFound { name: m } && m@ == name@,
    {
        CurveError::CurveNotFound { name: owned(name) }
    }

    /// Creates an invalid data error.
    pub fn invalid_data(reason: &str) -> (r: Self)
        ensures
            r matches CurveError::InvalidData { reason: m } && m@ == reason@,
    {
        CurveError::InvalidData { reason: owned(reason) }
    }
}

} // verus!
