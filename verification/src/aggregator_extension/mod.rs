//! The aggregator: identifiers, the resolver that supplies base values, the
//! counter itself and the per-transaction table that owns the counters.

pub mod id;
pub mod resolver;
pub mod aggregator;
pub mod data;
pub mod laws;
