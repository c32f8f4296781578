use vstd::prelude::*;
use crate::aggregator_extension::id::AggregatorID;
use crate::aggregator_extension::resolver::{Consultation, Resolver, ResolverError, TracedResolver};

verus! {

/// Why an operation on an aggregator failed.
#[derive(Clone, Copy, Debug, PartialEq, Eq, Structural)]
pub enum AggregatorError {
    /// The value would exceed the aggregator's limit.
    Overflow,
    /// The value would fall below zero.
    Underflow,
    /// The resolver could not supply the base value.
    Resolver(ResolverError),
}

/// What an aggregator knows of its value.
#[derive(Clone, Copy, Debug, PartialEq, Eq, Structural)]
pub enum AggregatorState {
    /// The sum of the additions requested so far, not yet reconciled with the
    /// value in storage. `None` once that sum no longer fits in 128 bits.
    Delta(Option<u128>),
    /// The value, fixed by an earlier reconciliation with storage.
    Materialized(u128),
}

/// The mathematical state of an aggregator.
pub enum StateView {
    /// The pending sum, where `pending_bound()` stands for every sum from
    /// `pending_bound()` on.
    Delta(nat),
    Materialized(u128),
}

/// The least pending sum that an aggregator no longer tells apart from
/// larger ones: two to the power 128, which is above every limit.
pub open spec fn pending_bound() -> nat {
    (u128::MAX + 1) as nat
}

/// `sum`, or `pending_bound()` if `sum` is beyond it.
pub open spec fn bounded(sum: nat) -> nat {
    if sum < pending_bound() {
        sum
    } else {
        pending_bound()
    }
}

impl View for AggregatorState {
    type V = StateView;

    open spec fn view(&self) -> StateView {
        match *self {
            AggregatorState::Delta(Some(pending)) => StateView::Delta(pending as nat),
            AggregatorState::Delta(None) => StateView::Delta(pending_bound()),
            AggregatorState::Materialized(value) => StateView::Materialized(value),
        }
    }
}

/// The mathematical model of an aggregator: the counter it stands for, its
/// inclusive upper bound and its state.
pub struct AggregatorView {
    pub id: AggregatorID,
    pub limit: u128,
    pub state: StateView,
}

impl AggregatorView {
    /// The aggregator as its first access creates it: nothing pending.
    pub open spec fn fresh(id: AggregatorID, limit: u128) -> AggregatorView {
        AggregatorView { id, limit, state: StateView::Delta(0) }
    }

    /// A pending sum is at most `pending_bound()`, and a materialized value
    /// lies within the limit.
    pub open spec fn wf(self) -> bool {
        match self.state {
            StateView::Delta(pending) => pending <= pending_bound(),
            StateView::Materialized(value) => value <= self.limit,
        }
    }

    /// Whether reading the value has to consult the resolver.
    pub open spec fn consults(self) -> bool {
        self.state is Delta
    }

    /// The aggregator after a request to add `delta`, and the outcome.
    ///
    /// A pending sum only grows: its check against the limit waits for the
    /// base value. A materialized value is checked at once, and left as it
    /// was if the sum would pass the limit.
    pub open spec fn added(self, delta: u128) -> (AggregatorView, Result<(), AggregatorError>) {
        match self.state {
            StateView::Delta(pending) => (
                AggregatorView { state: StateView::Delta(bounded((pending + delta) as nat)), ..self },
                Ok(()),
            ),
            StateView::Materialized(value) => if value + delta <= self.limit {
                (
                    AggregatorView {
                        state: StateView::Materialized((value + delta) as u128),
                        ..self
                    },
                    Ok(()),
                )
            } else {
                (self, Err(AggregatorError::Overflow))
            },
        }
    }

    /// The aggregator after reconciling a pending sum with the resolver's
    /// `answer`, and the value read.
    ///
    /// A materialized aggregator returns its value whatever `answer` is. A
    /// failed reconciliation leaves the pending sum in place.
    pub open spec fn materialized(self, answer: Result<u128, ResolverError>) -> (
        AggregatorView,
        Result<u128, AggregatorError>,
    ) {
        match self.state {
            StateView::Materialized(value) => (self, Ok(value)),
            StateView::Delta(pending) => match answer {
                Err(e) => (self, Err(AggregatorError::Resolver(e))),
                Ok(base) => if base + pending <= self.limit {
                    (
                        AggregatorView {
                            state: StateView::Materialized((base + pending) as u128),
                            ..self
                        },
                        Ok((base + pending) as u128),
                    )
                } else {
                    (self, Err(AggregatorError::Overflow))
                },
            },
        }
    }

    /// The aggregator after a request to subtract `delta`, and the outcome:
    /// reconcile with `answer` first, then take `delta` from the value.
    ///
    /// Where the reconciliation succeeds and the subtraction does not, the
    /// aggregator stays materialized at the value it was reconciled to.
    pub open spec fn subtracted(self, answer: Result<u128, ResolverError>, delta: u128) -> (
        AggregatorView,
        Result<(), AggregatorError>,
    ) {
        let (reconciled, read) = self.materialized(answer);
        match read {
            Err(e) => (reconciled, Err(e)),
            Ok(value) => if delta <= value {
                (
                    AggregatorView {
                        state: StateView::Materialized((value - delta) as u128),
                        ..reconciled
                    },
                    Ok(()),
                )
            } else {
                (reconciled, Err(AggregatorError::Underflow))
            },
        }
    }

    /// The record of consultations after an operation that reads the value:
    /// one more entry, for this counter, if the resolver had to be consulted.
    pub open spec fn consulted(
        self,
        trace: Seq<Consultation>,
        answer: Result<u128, ResolverError>,
    ) -> Seq<Consultation> {
        if self.consults() {
            trace.push(Consultation { id: self.id, answer })
        } else {
            trace
        }
    }
}

/// A bounded counter that puts off reconciling with storage: additions pile
/// up as a pending sum until a read or a subtraction needs the value.
#[derive(Debug, PartialEq, Eq, Structural)]
pub struct Aggregator {
    id: AggregatorID,
    limit: u128,
    state: AggregatorState,
}

impl View for Aggregator {
    type V = AggregatorView;

    closed spec fn view(&self) -> AggregatorView {
        AggregatorView { id: self.id, limit: self.limit, state: self.state@ }
    }
}

impl Aggregator {
    /// Holds of every aggregator at all times: a materialized value lies
    /// within the limit.
    #[verifier::type_invariant]
    spec fn within_limit(self) -> bool {
        self@.wf()
    }

    /// An aggregator for `id` with nothing pending and the inclusive upper
    /// bound `limit`.
    pub fn new(id: AggregatorID, limit: u128) -> (aggregator: Self)
        ensures
            aggregator@ == AggregatorView::fresh(id, limit),
    {
        Aggregator { id, limit, state: AggregatorState::Delta(Some(0)) }
    }

    pub fn id(&self) -> (id: AggregatorID)
        ensures
            id == self@.id,
    {
        self.id
    }

    pub fn limit(&self) -> (limit: u128)
        ensures
            limit == self@.limit,
    {
        self.limit
    }

    /// The state, which is always well formed: a materialized value is
    /// never above the limit.
    pub fn state(&self) -> (state: AggregatorState)
        ensures
            state@ == self@.state,
            self@.wf(),
    {
        proof {
            use_type_invariant(self);
        }
        self.state
    }

    /// Adds `delta`. Never consults a resolver: a pending sum grows
    /// unchecked, a materialized value is checked against the limit at once.
    pub fn add(&mut self, delta: u128) -> (outcome: Result<(), AggregatorError>)
        ensures
            (final(self)@, outcome) == old(self)@.added(delta),
    {
        match self.state {
            AggregatorState::Delta(pending) => {
                let sum = match pending {
                    Some(pending) => pending.checked_add(delta),
                    None => None,
                };
                self.state = AggregatorState::Delta(sum);
                Ok(())
            },
            AggregatorState::Materialized(value) => {
                match value.checked_add(delta) {
                    Some(sum) => {
                        if sum <= self.limit {
                            self.state = AggregatorState::Materialized(sum);
                            Ok(())
                        } else {
                            Err(AggregatorError::Overflow)
                        }
                    },
                    None => Err(AggregatorError::Overflow),
                }
            },
        }
    }

    /// Reads the value, given the resolver's `answer` for this counter.
    ///
    /// A materialized aggregator returns its value and ignores `answer`. A
    /// pending sum is added to the base value in `answer` and checked against
    /// the limit; on success the aggregator is materialized at the result.
    pub fn materialize_with(&mut self, answer: Result<u128, ResolverError>) -> (read: Result<
        u128,
        AggregatorError,
    >)
        ensures
            (final(self)@, read) == old(self)@.materialized(answer),
            read matches Ok(value) ==> value <= old(self)@.limit,
    {
        proof {
            use_type_invariant(&*self);
        }
        match self.state {
            AggregatorState::Materialized(value) => Ok(value),
            AggregatorState::Delta(pending) => {
                match answer {
                    Err(e) => Err(AggregatorError::Resolver(e)),
                    Ok(base) => {
                        let sum = match pending {
                            Some(pending) => base.checked_add(pending),
                            None => None,
                        };
                        match sum {
                            Some(value) => {
                                if value <= self.limit {
                                    self.state = AggregatorState::Materialized(value);
                                    Ok(value)
                                } else {
                                    Err(AggregatorError::Overflow)
                                }
                            },
                            None => Err(AggregatorError::Overflow),
                        }
                    },
                }
            },
        }
    }

    /// Reads the value, reconciling a pending sum with storage first.
    ///
    /// A materialized aggregator returns its value and leaves `resolver`
    /// untouched. Otherwise `resolver` is consulted once, about this counter,
    /// and the value follows from its answer as `materialize_with` says.
    ///
    /// In the contract `answer` is the latest answer on record, which is the
    /// answer to this consultation wherever there was one.
    pub fn read_and_materialize<R: Resolver>(&mut self, resolver: &mut TracedResolver<R>) -> (read:
        Result<u128, AggregatorError>)
        ensures
            ({
                let answer = final(resolver).trace().last().answer;
                &&& (final(self)@, read) == old(self)@.materialized(answer)
                &&& final(resolver).trace() == old(self)@.consulted(old(resolver).trace(), answer)
            }),
            !old(self)@.consults() ==> *final(resolver) == *old(resolver),
            read matches Ok(value) ==> value <= old(self)@.limit,
    {
        proof {
            use_type_invariant(&*self);
        }
        match self.state {
            AggregatorState::Materialized(value) => Ok(value),
            AggregatorState::Delta(_) => {
                let answer = resolver.resolve(&self.id);
                self.materialize_with(answer)
            },
        }
    }

    /// Takes `delta` from the value at which the aggregator is materialized.
    fn decrement(&mut self, value: u128, delta: u128) -> (outcome: Result<(), AggregatorError>)
        requires
            old(self)@.state == StateView::Materialized(value),
        ensures
            delta <= value ==> outcome == Ok::<(), AggregatorError>(()) && final(self)@ == (
            AggregatorView {
                state: StateView::Materialized((value - delta) as u128),
                ..old(self)@
            }),
            delta > value ==> outcome == Err::<(), AggregatorError>(AggregatorError::Underflow)
                && final(self)@ == old(self)@,
    {
        proof {
            use_type_invariant(&*self);
        }
        if delta <= value {
            self.state = AggregatorState::Materialized(value - delta);
            Ok(())
        } else {
            Err(AggregatorError::Underflow)
        }
    }

    /// Subtracts `delta`, given the resolver's `answer` for this counter:
    /// reads the value as `materialize_with` does, then takes `delta` from it.
    pub fn sub_with(&mut self, answer: Result<u128, ResolverError>, delta: u128) -> (outcome:
        Result<(), AggregatorError>)
        ensures
            (final(self)@, outcome) == old(self)@.subtracted(answer, delta),
    {
        match self.materialize_with(answer) {
            Err(e) => Err(e),
            Ok(value) => self.decrement(value, delta),
        }
    }

    /// Subtracts `delta`. The value is read first, which reconciles a pending
    /// sum with storage through `resolver`, and `delta` is then taken from it.
    ///
    /// Where the read succeeds and the value is less than `delta`, the
    /// aggregator stays materialized at the value read.
    ///
    /// In the contract `answer` is the latest answer on record, which is the
    /// answer to this consultation wherever there was one.
    pub fn sub<R: Resolver>(&mut self, resolver: &mut TracedResolver<R>, delta: u128) -> (outcome:
        Result<(), AggregatorError>)
        ensures
            ({
                let answer = final(resolver).trace().last().answer;
                &&& (final(self)@, outcome) == old(self)@.subtracted(answer, delta)
                &&& final(resolver).trace() == old(self)@.consulted(old(resolver).trace(), answer)
            }),
            !old(self)@.consults() ==> *final(resolver) == *old(resolver),
    {
        match self.read_and_materialize(resolver) {
            Err(e) => Err(e),
            Ok(value) => self.decrement(value, delta),
        }
    }
}

} // verus!
