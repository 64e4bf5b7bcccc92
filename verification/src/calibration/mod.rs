//! Curve calibration from market instruments.

pub mod instruments;
