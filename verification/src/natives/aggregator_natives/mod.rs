//! The native functions on aggregators and the context they run in.

pub mod aggregator;
pub mod context;
