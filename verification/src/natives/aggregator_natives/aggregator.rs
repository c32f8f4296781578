use vstd::prelude::*;
use crate::aggregator_extension::aggregator::AggregatorError;
use crate::aggregator_extension::data::entry;
use crate::aggregator_extension::id::AggregatorID;
use crate::aggregator_extension::resolver::Resolver;
use crate::natives::aggregator_natives::context::NativeAggregatorContext;

verus! {

/// The cost of `add`, in internal gas units.
#[derive(Debug, Clone, Copy)]
pub struct AddGasParameters {
    pub base_cost: u64,
}

/// Adds `value` to the aggregator that `handle`, `key` and `limit` describe,
/// creating it if this transaction has not touched it yet, and reports the
/// cost. Storage is never consulted.
///
/// On failure the aggregator is in the table all the same, as it was before
/// the addition.
pub fn native_add<R: Resolver>(
    gas_params: &AddGasParameters,
    context: &mut NativeAggregatorContext<R>,
    handle: u128,
    key: u128,
    limit: u128,
    value: u128,
) -> (result: Result<u64, AggregatorError>)
    ensures
        old(context).aggregator_data.wf() ==> final(context).aggregator_data.wf(),
        final(context).resolver == old(context).resolver,
        ({
            let id = AggregatorID { handle, key };
            let (after, outcome) = entry(old(context).aggregator_data@, id, limit).added(value);
            &&& final(context).aggregator_data@ == old(context).aggregator_data@.insert(id, after)
            &&& result == match outcome {
                Ok(_) => Ok::<u64, AggregatorError>(gas_params.base_cost),
                Err(e) => Err::<u64, AggregatorError>(e),
            }
        }),
{
    let id = AggregatorID::new(handle, key);
    let aggregator = context.aggregator_data.get_or_create(id, limit);
    match aggregator.add(value) {
        Ok(_) => Ok(gas_params.base_cost),
        Err(e) => Err(e),
    }
}

/// The cost of `read`, in internal gas units.
#[derive(Debug, Clone, Copy)]
pub struct ReadGasParameters {
    pub base_cost: u64,
}

/// Reads the value of the aggregator that `handle`, `key` and `limit`
/// describe, creating it if this transaction has not touched it yet, and
/// reports the cost with the value.
///
/// A pending sum is reconciled with storage first, by one consultation of the
/// context's resolver; a materialized aggregator leaves the resolver alone.
pub fn native_read<R: Resolver>(
    gas_params: &ReadGasParameters,
    context: &mut NativeAggregatorContext<R>,
    handle: u128,
    key: u128,
    limit: u128,
) -> (result: Result<(u64, u128), AggregatorError>)
    ensures
        old(context).aggregator_data.wf() ==> final(context).aggregator_data.wf(),
        ({
            let id = AggregatorID { handle, key };
            let found = entry(old(context).aggregator_data@, id, limit);
            let answer = final(context).resolver.trace().last().answer;
            let (after, read) = found.materialized(answer);
            &&& final(context).aggregator_data@ == old(context).aggregator_data@.insert(id, after)
            &&& final(context).resolver.trace() == found.consulted(
                old(context).resolver.trace(),
                answer,
            )
            &&& !found.consults() ==> final(context).resolver == old(context).resolver
            &&& result == match read {
                Ok(value) => Ok::<(u64, u128), AggregatorError>((gas_params.base_cost, value)),
                Err(e) => Err::<(u64, u128), AggregatorError>(e),
            }
            &&& result matches Ok((_, value)) ==> value <= found.limit
        }),
{
    let id = AggregatorID::new(handle, key);
    let aggregator = context.aggregator_data.get_or_create(id, limit);
    match aggregator.read_and_materialize(&mut context.resolver) {
        Ok(value) => Ok((gas_params.base_cost, value)),
        Err(e) => Err(e),
    }
}

/// The cost of `sub`, in internal gas units.
#[derive(Debug, Clone, Copy)]
pub struct SubGasParameters {
    pub base_cost: u64,
}

/// Subtracts `value` from the aggregator that `handle`, `key` and `limit`
/// describe, creating it if this transaction has not touched it yet, and
/// reports the cost.
///
/// The value is read first, as `native_read` does, so a pending sum costs one
/// consultation of the context's resolver. Where that read succeeds and the
/// value is less than `value`, the aggregator stays materialized at the value
/// read.
pub fn native_sub<R: Resolver>(
    gas_params: &SubGasParameters,
    context: &mut NativeAggregatorContext<R>,
    handle: u128,
    key: u128,
    limit: u128,
    value: u128,
) -> (result: Result<u64, AggregatorError>)
    ensures
        old(context).aggregator_data.wf() ==> final(context).aggregator_data.wf(),
        ({
            let id = AggregatorID { handle, key };
            let found = entry(old(context).aggregator_data@, id, limit);
            let answer = final(context).resolver.trace().last().answer;
            let (after, outcome) = found.subtracted(answer, value);
            &&& final(context).aggregator_data@ == old(context).aggregator_data@.insert(id, after)
            &&& final(context).resolver.trace() == found.consulted(
                old(context).resolver.trace(),
                answer,
            )
            &&& !found.consults() ==> final(context).resolver == old(context).resolver
            &&& result == match outcome {
                Ok(_) => Ok::<u64, AggregatorError>(gas_params.base_cost),
                Err(e) => Err::<u64, AggregatorError>(e),
            }
        }),
{
    let id = AggregatorID::new(handle, key);
    let aggregator = context.aggregator_data.get_or_create(id, limit);
    match aggregator.sub(&mut context.resolver, value) {
        Ok(_) => Ok(gas_params.base_cost),
        Err(e) => Err(e),
    }
}

/// The cost of `destroy`, in internal gas units.
#[derive(Debug, Clone, Copy)]
pub struct DestroyGasParameters {
    pub base_cost: u64,
}

/// Removes the aggregator that `handle` and `key` name from the table and
/// reports the cost. Where this transaction has not touched the aggregator,
/// nothing changes. Storage is never consulted.
pub fn native_destroy<R: Resolver>(
    gas_params: &DestroyGasParameters,
    context: &mut NativeAggregatorContext<R>,
    handle: u128,
    key: u128,
) -> (cost: u64)
    ensures
        old(context).aggregator_data.wf() ==> final(context).aggregator_data.wf(),
        final(context).resolver == old(context).resolver,
        final(context).aggregator_data@ == old(context).aggregator_data@.remove(
            AggregatorID { handle, key },
        ),
        cost == gas_params.base_cost,
{
    let id = AggregatorID::new(handle, key);
    context.aggregator_data.remove(id);
    gas_params.base_cost
}

/// The costs of the four natives.
#[derive(Debug, Clone, Copy)]
pub struct GasParameters {
    pub add: AddGasParameters,
    pub read: ReadGasParameters,
    pub sub: SubGasParameters,
    pub destroy: DestroyGasParameters,
}

} // verus!
