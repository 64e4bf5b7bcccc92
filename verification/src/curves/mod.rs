//! Curve compositions: delegation and spreads.

pub mod delegated;
pub mod spread;
