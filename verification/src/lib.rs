//! Verified cores of two families of native functions: the aggregator, a
//! bounded counter whose reconciliation with storage is deferred as long as
//! possible, and arithmetic on ristretto255 scalars.

pub mod aggregator_extension;
pub mod natives;
