use vstd::prelude::*;
use crate::aggregator_extension::aggregator::AggregatorView;
use crate::aggregator_extension::data::AggregatorData;
use crate::aggregator_extension::id::AggregatorID;
use crate::aggregator_extension::resolver::{Consultation, Resolver, TracedResolver};

verus! {

/// What the aggregator natives of one transaction work on: the resolver that
/// reaches storage and the aggregators that the transaction has touched.
pub struct NativeAggregatorContext<R: Resolver> {
    pub resolver: TracedResolver<R>,
    pub aggregator_data: AggregatorData,
}

impl<R: Resolver> NativeAggregatorContext<R> {
    /// A context with no aggregators yet, whose lookups go to `resolver`.
    pub fn new(resolver: R) -> (context: Self)
        ensures
            context.aggregator_data.wf(),
            context.aggregator_data@ == Map::<AggregatorID, AggregatorView>::empty(),
            context.resolver.resolver() == resolver,
            context.resolver.trace() == Seq::<Consultation>::empty(),
    {
        NativeAggregatorContext {
            resolver: TracedResolver::new(resolver),
            aggregator_data: AggregatorData::new(),
        }
    }
}

} // verus!
