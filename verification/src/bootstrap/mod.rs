//! Curve bootstrapping.

pub mod global;
pub mod sequential;
