//! The native functions on ristretto255 scalars.

pub mod ristretto255;
pub mod ristretto255_scalar;
pub mod scalar_field;
