//! What holds of every aggregator and every table, whatever the sequence of
//! operations and whatever the resolver answers.

use vstd::prelude::*;
use crate::aggregator_extension::aggregator::{
    bounded,
    AggregatorError,
    AggregatorView,
    StateView,
};
use crate::aggregator_extension::data::entry;
use crate::aggregator_extension::id::AggregatorID;
use crate::aggregator_extension::resolver::{Consultation, ResolverError};

verus! {

/// The sum of `deltas`.
pub open spec fn total(deltas: Seq<u128>) -> nat
    decreases deltas.len(),
{
    if deltas.len() == 0 {
        0
    } else {
        total(deltas.drop_last()) + deltas.last() as nat
    }
}

/// `aggregator` after requests to add each of `deltas` in turn.
pub open spec fn added_all(aggregator: AggregatorView, deltas: Seq<u128>) -> AggregatorView
    decreases deltas.len(),
{
    if deltas.len() == 0 {
        aggregator
    } else {
        added_all(aggregator, deltas.drop_last()).added(deltas.last()).0
    }
}

/// An addition to a pending sum always succeeds and leaves the sum pending,
/// however large it grows.
pub proof fn lemma_add_to_pending_succeeds(aggregator: AggregatorView, delta: u128)
    requires
        aggregator.state is Delta,
    ensures
        aggregator.added(delta).1 == Ok::<(), AggregatorError>(()),
        aggregator.added(delta).0.state is Delta,
{
}

/// Additions to a pending sum pile up: after them the aggregator holds that
/// sum plus the total added, as far as it tells sums apart.
pub proof fn lemma_pending_sum_accumulates(aggregator: AggregatorView, deltas: Seq<u128>)
    requires
        aggregator.state is Delta,
        aggregator.wf(),
    ensures
        added_all(aggregator, deltas) == (AggregatorView {
            state: StateView::Delta(bounded(aggregator.state->Delta_0 + total(deltas))),
            ..aggregator
        }),
    decreases deltas.len(),
{
    if deltas.len() > 0 {
        lemma_pending_sum_accumulates(aggregator, deltas.drop_last());
    }
}

/// After any additions to a fresh aggregator with limit `limit`, a read
/// against the base value `base` returns the base plus the total added if
/// that is within the limit and leaves the aggregator materialized there.
/// Otherwise the read fails with `Overflow` and the pending sum stays as it
/// was, so that a later read against another base can still succeed.
pub proof fn lemma_additions_then_read(
    id: AggregatorID,
    limit: u128,
    deltas: Seq<u128>,
    base: u128,
)
    ensures
        ({
            let pending = added_all(AggregatorView::fresh(id, limit), deltas);
            let (after, read) = pending.materialized(Ok(base));
            let value = base + total(deltas);
            &&& pending.state is Delta
            &&& value <= limit ==> read == Ok::<u128, AggregatorError>(value as u128)
                && after.state == StateView::Materialized(value as u128)
            &&& value > limit ==> read == Err::<u128, AggregatorError>(AggregatorError::Overflow)
                && after == pending
        }),
{
    lemma_pending_sum_accumulates(AggregatorView::fresh(id, limit), deltas);
}

/// Reading is idempotent. After a read that succeeded, a second read returns
/// the same value and leaves the aggregator as it was, whatever the resolver
/// would answer, and consults nothing: the two reads together consult the
/// resolver once if the aggregator held a pending sum, and never if it was
/// materialized before. After a read that failed the aggregator is as it
/// was, so the second read is a first read over again.
pub proof fn lemma_read_is_idempotent(
    aggregator: AggregatorView,
    trace: Seq<Consultation>,
    first: Result<u128, ResolverError>,
    second: Result<u128, ResolverError>,
)
    ensures
        ({
            let (once, read) = aggregator.materialized(first);
            let after_first = aggregator.consulted(trace, first);
            let after_second = once.consulted(after_first, second);
            &&& read is Ok ==> {
                &&& once.materialized(second) == (once, read)
                &&& after_second == after_first
                &&& aggregator.state is Delta ==> after_second == trace.push(
                    Consultation { id: aggregator.id, answer: first },
                )
                &&& aggregator.state is Materialized ==> after_second == trace
            }
            &&& read is Err ==> once == aggregator
        }),
{
}

/// A subtraction reads the value exactly once before it takes anything away.
/// From a pending sum, even one that nothing was ever added to, that is one
/// consultation of the resolver about this counter; from a materialized
/// value, none. If the read fails, so does the subtraction, with the same
/// error, and nothing changes. If the read succeeds, the aggregator is
/// materialized from then on: at the value read less `delta`, or, where that
/// would fall below zero, at the value read, with `Underflow`.
pub proof fn lemma_sub_reads_once(
    aggregator: AggregatorView,
    trace: Seq<Consultation>,
    answer: Result<u128, ResolverError>,
    delta: u128,
)
    ensures
        ({
            let (reconciled, read) = aggregator.materialized(answer);
            let (after, outcome) = aggregator.subtracted(answer, delta);
            let consulted = aggregator.consulted(trace, answer);
            &&& AggregatorView::fresh(aggregator.id, aggregator.limit).consults()
            &&& aggregator.state is Delta ==> consulted == trace.push(
                Consultation { id: aggregator.id, answer },
            )
            &&& aggregator.state is Materialized ==> consulted == trace
            &&& read matches Err(e) ==> outcome == Err::<(), AggregatorError>(e) && after
                == aggregator
            &&& read matches Ok(value) ==> reconciled.state == StateView::Materialized(value) && (
            if delta <= value {
                outcome == Ok::<(), AggregatorError>(()) && after.state
                    == StateView::Materialized((value - delta) as u128)
            } else {
                outcome == Err::<(), AggregatorError>(AggregatorError::Underflow) && after
                    == reconciled
            })
        }),
{
}

/// No operation changes which counter an aggregator stands for or its limit,
/// and each keeps a materialized value within the limit.
pub proof fn lemma_operations_preserve_wf(
    aggregator: AggregatorView,
    answer: Result<u128, ResolverError>,
    delta: u128,
)
    requires
        aggregator.wf(),
    ensures
        ({
            let added = aggregator.added(delta).0;
            let read = aggregator.materialized(answer).0;
            let subtracted = aggregator.subtracted(answer, delta).0;
            &&& added.wf() && added.id == aggregator.id && added.limit == aggregator.limit
            &&& read.wf() && read.id == aggregator.id && read.limit == aggregator.limit
            &&& subtracted.wf() && subtracted.id == aggregator.id && subtracted.limit
                == aggregator.limit
        }),
{
}

/// A materialized aggregator never goes back to a pending sum.
pub proof fn lemma_materialized_is_final(
    aggregator: AggregatorView,
    answer: Result<u128, ResolverError>,
    delta: u128,
)
    requires
        aggregator.state is Materialized,
    ensures
        aggregator.added(delta).0.state is Materialized,
        aggregator.materialized(answer).0.state is Materialized,
        aggregator.subtracted(answer, delta).0.state is Materialized,
{
}

/// A failed addition and a failed read change nothing. A failed subtraction
/// changes nothing beyond the read that it began with.
pub proof fn lemma_failure_changes_nothing(
    aggregator: AggregatorView,
    answer: Result<u128, ResolverError>,
    delta: u128,
)
    ensures
        aggregator.added(delta).1 is Err ==> aggregator.added(delta).0 == aggregator,
        aggregator.materialized(answer).1 is Err ==> aggregator.materialized(answer).0
            == aggregator,
        aggregator.subtracted(answer, delta).1 is Err ==> aggregator.subtracted(answer, delta).0
            == aggregator.materialized(answer).0,
{
}

/// Once a counter's entry is removed, the next access to the counter finds a
/// fresh aggregator, with the limit given then and nothing left of the entry
/// that was removed.
pub proof fn lemma_access_after_remove_is_fresh(
    table: Map<AggregatorID, AggregatorView>,
    id: AggregatorID,
    limit: u128,
)
    ensures
        !table.remove(id).contains_key(id),
        entry(table.remove(id), id, limit) == AggregatorView::fresh(id, limit),
{
}

/// Aggregators for distinct counters do not interact: whatever an access
/// leaves in the entry for `touched`, and whether or not that entry is
/// removed, the entry for `other` is there or not as before, and holds what
/// it held.
pub proof fn lemma_distinct_counters_are_independent(
    table: Map<AggregatorID, AggregatorView>,
    touched: AggregatorID,
    left: AggregatorView,
    other: AggregatorID,
    limit: u128,
)
    requires
        touched != other,
    ensures
        table.insert(touched, left).contains_key(other) == table.contains_key(other),
        table.remove(touched).contains_key(other) == table.contains_key(other),
        entry(table.insert(touched, left), other, limit) == entry(table, other, limit),
        entry(table.remove(touched), other, limit) == entry(table, other, limit),
{
}

} // verus!
