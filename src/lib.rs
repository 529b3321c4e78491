//! Gas-metered native functions for Ristretto255 points: a dimension-checked gas
//! algebra, a handle-indexed store of native points, and the native entry points
//! that charge for and perform the point operations.

pub mod curve;

pub mod formula;
pub mod gas_algebra;
pub mod metering;
pub mod natives;
pub mod store;
