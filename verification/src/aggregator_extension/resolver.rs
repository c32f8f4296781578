use vstd::prelude::*;
use crate::aggregator_extension::id::AggregatorID;

verus! {

/// A base-value lookup that failed for a reason outside the aggregator's
/// control. The aggregator hands it on unchanged.
#[derive(Clone, Copy, Debug, PartialEq, Eq, Structural)]
pub struct ResolverError {
    /// The status that the storage layer reported.
    pub code: u64,
}

/// The capability to look up the value that storage currently holds for a
/// counter. A counter that storage has never seen resolves to `Ok(0)`.
///
/// Nothing is assumed of an implementation: whatever `resolve` returns, the
/// aggregator's contracts say what follows from it.
pub trait Resolver {
    fn resolve(&mut self, id: &AggregatorID) -> Result<u128, ResolverError>;
}

/// One consultation of a resolver: the counter asked about and the answer.
pub struct Consultation {
    pub id: AggregatorID,
    pub answer: Result<u128, ResolverError>,
}

/// A resolver together with the record of every consultation made through it.
///
/// The record exists only in proofs. It lets a contract say how often, about
/// which counter and with what answer an operation went to storage.
pub struct TracedResolver<R: Resolver> {
    resolver: R,
    trace: Ghost<Seq<Consultation>>,
}

impl<R: Resolver> TracedResolver<R> {
    /// The consultations made so far, oldest first.
    pub closed spec fn trace(&self) -> Seq<Consultation> {
        self.trace@
    }

    /// The resolver that the consultations go to.
    pub closed spec fn resolver(&self) -> R {
        self.resolver
    }

    pub fn new(resolver: R) -> (traced: Self)
        ensures
            traced.resolver() == resolver,
            traced.trace() == Seq::<Consultation>::empty(),
    {
        TracedResolver { resolver, trace: Ghost(Seq::empty()) }
    }

    /// Asks the resolver about `id` and records the consultation.
    pub fn resolve(&mut self, id: &AggregatorID) -> (answer: Result<u128, ResolverError>)
        ensures
            final(self).trace() == old(self).trace().push(Consultation { id: *id, answer }),
    {
        let answer = self.resolver.resolve(id);
        proof {
            self.trace@ = self.trace@.push(Consultation { id: *id, answer });
        }
        answer
    }

    /// The resolver itself, for reading.
    pub fn get_ref(&self) -> (resolver: &R)
        ensures
            *resolver == self.resolver(),
    {
        &self.resolver
    }

    /// Gives the resolver back and drops the record.
    pub fn into_inner(self) -> (resolver: R)
        ensures
            resolver == self.resolver(),
    {
        self.resolver
    }
}

} // verus!
