use vstd::prelude::*;
use std::cmp::Ordering;

verus! {

/// Names one logical counter: a table handle and a slot key within that table.
///
/// A pure value. Two identifiers are the same counter exactly when both
/// fields agree, and identifiers are ordered by handle first, then by key.
#[derive(Clone, Copy, Debug, PartialEq, Eq, Structural, Ord, Hash)]
pub struct AggregatorID {
    /// The table that holds the counter.
    pub handle: u128,
    /// The slot of the counter within that table.
    pub key: u128,
}

impl AggregatorID {
    pub fn new(handle: u128, key: u128) -> (id: Self)
        ensures
            id == (AggregatorID { handle, key }),
    {
        AggregatorID { handle, key }
    }

    /// Whether `self` comes before `other`: by handle, and by key where the
    /// handles agree.
    pub open spec fn precedes(self, other: AggregatorID) -> bool {
        self.handle < other.handle || (self.handle == other.handle && self.key < other.key)
    }
}

impl PartialOrd for AggregatorID {
    fn partial_cmp(&self, other: &Self) -> (order: Option<Ordering>) {
        if self.handle < other.handle {
            Some(Ordering::Less)
        } else if self.handle > other.handle {
            Some(Ordering::Greater)
        } else if self.key < other.key {
            Some(Ordering::Less)
        } else if self.key > other.key {
            Some(Ordering::Greater)
        } else {
            Some(Ordering::Equal)
        }
    }
}

impl vstd::std_specs::cmp::PartialOrdSpecImpl for AggregatorID {
    open spec fn obeys_partial_cmp_spec() -> bool {
        true
    }

    open spec fn partial_cmp_spec(&self, other: &AggregatorID) -> Option<Ordering> {
        if self.precedes(*other) {
            Some(Ordering::Less)
        } else if other.precedes(*self) {
            Some(Ordering::Greater)
        } else {
            Some(Ordering::Equal)
        }
    }
}

} // verus!
