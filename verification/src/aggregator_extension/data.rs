use vstd::prelude::*;
use crate::aggregator_extension::aggregator::{Aggregator, AggregatorView};
use crate::aggregator_extension::id::AggregatorID;

verus! {

/// The aggregator that an access to `id` finds in `table`: the entry for
/// `id` if there is one, whatever `limit` says, and else a fresh aggregator
/// with that limit.
pub open spec fn entry(
    table: Map<AggregatorID, AggregatorView>,
    id: AggregatorID,
    limit: u128,
) -> AggregatorView {
    if table.contains_key(id) {
        table[id]
    } else {
        AggregatorView::fresh(id, limit)
    }
}

/// No two of `aggregators` stand for the same counter.
spec fn distinct(aggregators: Seq<Aggregator>) -> bool {
    forall|i: int, j: int|
        0 <= i < j < aggregators.len() ==> aggregators[i]@.id != aggregators[j]@.id
}

/// `aggregators` as a map from each counter to its aggregator. Should a
/// counter occur twice, the first occurrence counts.
spec fn as_map(aggregators: Seq<Aggregator>) -> Map<AggregatorID, AggregatorView>
    decreases aggregators.len(),
{
    if aggregators.len() == 0 {
        Map::empty()
    } else {
        as_map(aggregators.drop_first()).insert(aggregators[0]@.id, aggregators[0]@)
    }
}

/// Whether `i` is the first place in `aggregators` that stands for `id`.
spec fn first_for(aggregators: Seq<Aggregator>, id: AggregatorID, i: int) -> bool {
    &&& 0 <= i < aggregators.len()
    &&& aggregators[i]@.id == id
    &&& forall|j: int| 0 <= j < i ==> aggregators[j]@.id != id
}

/// The first aggregator for a counter is that counter's entry.
proof fn lemma_first_is_entry(aggregators: Seq<Aggregator>, id: AggregatorID, i: int)
    requires
        first_for(aggregators, id, i),
    ensures
        as_map(aggregators).contains_key(id),
        as_map(aggregators)[id] == aggregators[i]@,
    decreases i,
{
    if i > 0 {
        let rest = aggregators.drop_first();
        assert forall|j: int| 0 <= j < i - 1 implies rest[j]@.id != id by {
            assert(rest[j] == aggregators[j + 1]);
        }
        lemma_first_is_entry(rest, id, i - 1);
    }
}

/// A counter that none of the aggregators stands for has no entry.
proof fn lemma_none_is_absent(aggregators: Seq<Aggregator>, id: AggregatorID)
    requires
        forall|j: int| 0 <= j < aggregators.len() ==> aggregators[j]@.id != id,
    ensures
        !as_map(aggregators).contains_key(id),
    decreases aggregators.len(),
{
    if aggregators.len() > 0 {
        let rest = aggregators.drop_first();
        assert forall|j: int| 0 <= j < rest.len() implies rest[j]@.id != id by {
            assert(rest[j] == aggregators[j + 1]);
        }
        lemma_none_is_absent(rest, id);
    }
}

/// Every entry is filed under the counter that its aggregator stands for.
proof fn lemma_entry_id(aggregators: Seq<Aggregator>, id: AggregatorID)
    requires
        as_map(aggregators).contains_key(id),
    ensures
        as_map(aggregators)[id].id == id,
    decreases aggregators.len(),
{
    if aggregators.len() > 0 && aggregators[0]@.id != id {
        lemma_entry_id(aggregators.drop_first(), id);
    }
}

/// Appending an aggregator for a counter that has no entry adds its entry.
proof fn lemma_push(aggregators: Seq<Aggregator>, added: Aggregator)
    requires
        !as_map(aggregators).contains_key(added@.id),
    ensures
        as_map(aggregators.push(added)) == as_map(aggregators).insert(added@.id, added@),
    decreases aggregators.len(),
{
    let pushed = aggregators.push(added);
    if aggregators.len() == 0 {
        assert(pushed.drop_first() =~= aggregators);
    } else {
        let rest = aggregators.drop_first();
        assert(pushed.drop_first() =~= rest.push(added));
        lemma_push(rest, added);
    }
    assert(as_map(pushed) =~= as_map(aggregators).insert(added@.id, added@));
}

/// Replacing the first aggregator for a counter by another for the same
/// counter replaces that counter's entry and no other.
proof fn lemma_update(
    aggregators: Seq<Aggregator>,
    id: AggregatorID,
    i: int,
    replacement: Aggregator,
)
    requires
        first_for(aggregators, id, i),
        replacement@.id == id,
    ensures
        as_map(aggregators.update(i, replacement)) == as_map(aggregators).insert(
            id,
            replacement@,
        ),
        distinct(aggregators) ==> distinct(aggregators.update(i, replacement)),
    decreases i,
{
    let updated = aggregators.update(i, replacement);
    let rest = aggregators.drop_first();
    if i == 0 {
        assert(updated.drop_first() =~= rest);
    } else {
        assert(updated.drop_first() =~= rest.update(i - 1, replacement));
        assert forall|j: int| 0 <= j < i - 1 implies rest[j]@.id != id by {
            assert(rest[j] == aggregators[j + 1]);
        }
        lemma_update(rest, id, i - 1, replacement);
    }
    assert(as_map(updated) =~= as_map(aggregators).insert(id, replacement@));
    if distinct(aggregators) {
        assert forall|j: int, k: int| 0 <= j < k < updated.len() implies updated[j]@.id
            != updated[k]@.id by {
            assert(updated[j]@.id == aggregators[j]@.id);
            assert(updated[k]@.id == aggregators[k]@.id);
        }
    }
}

/// Taking out an aggregator for `id` changes no entry but that of `id`.
proof fn lemma_remove(aggregators: Seq<Aggregator>, id: AggregatorID, i: int)
    requires
        0 <= i < aggregators.len(),
        aggregators[i]@.id == id,
    ensures
        as_map(aggregators.remove(i)).remove(id) == as_map(aggregators).remove(id),
        distinct(aggregators) ==> distinct(aggregators.remove(i)),
    decreases i,
{
    let removed = aggregators.remove(i);
    let rest = aggregators.drop_first();
    if i == 0 {
        assert(removed =~= rest);
    } else {
        assert(removed.drop_first() =~= rest.remove(i - 1));
        assert(removed[0] == aggregators[0]);
        assert(rest[i - 1] == aggregators[i]);
        lemma_remove(rest, id, i - 1);
        let shorter = as_map(rest.remove(i - 1));
        let longer = as_map(rest);
        assert forall|k: AggregatorID| k != id implies #[trigger] shorter.contains_key(k)
            == longer.contains_key(k) && (shorter.contains_key(k) ==> shorter[k] == longer[k]) by {
            assert(shorter.remove(id).contains_key(k) == shorter.contains_key(k));
            assert(longer.remove(id).contains_key(k) == longer.contains_key(k));
            if shorter.contains_key(k) {
                assert(shorter.remove(id)[k] == shorter[k]);
                assert(longer.remove(id)[k] == longer[k]);
            }
        }
    }
    assert(as_map(removed).remove(id) =~= as_map(aggregators).remove(id));
    if distinct(aggregators) {
        assert forall|j: int, k: int| 0 <= j < k < removed.len() implies removed[j]@.id
            != removed[k]@.id by {
            let j0 = if j < i {
                j
            } else {
                j + 1
            };
            let k0 = if k < i {
                k
            } else {
                k + 1
            };
            assert(removed[j] == aggregators[j0]);
            assert(removed[k] == aggregators[k0]);
        }
    }
}

/// The aggregators of one transaction, one for each counter that the
/// transaction has touched.
///
/// No operation asks anything of the table. That no counter has two
/// aggregators is an invariant, `wf`, which a new table has and every
/// operation keeps.
pub struct AggregatorData {
    aggregators: Vec<Aggregator>,
}

impl View for AggregatorData {
    type V = Map<AggregatorID, AggregatorView>;

    closed spec fn view(&self) -> Map<AggregatorID, AggregatorView> {
        as_map(self.aggregators@)
    }
}

impl Default for AggregatorData {
    fn default() -> (data: Self)
        ensures
            data.wf(),
            data@ == Map::<AggregatorID, AggregatorView>::empty(),
    {
        AggregatorData::new()
    }
}

impl AggregatorData {
    /// No counter has two aggregators.
    pub closed spec fn wf(&self) -> bool {
        distinct(self.aggregators@)
    }

    /// Every entry is the aggregator for the counter it is filed under.
    pub proof fn lemma_filed_by_id(&self, id: AggregatorID)
        requires
            self@.contains_key(id),
        ensures
            self@[id].id == id,
    {
        lemma_entry_id(self.aggregators@, id);
    }

    pub fn new() -> (data: Self)
        ensures
            data.wf(),
            data@ == Map::<AggregatorID, AggregatorView>::empty(),
    {
        AggregatorData { aggregators: Vec::new() }
    }

    /// The first place that stands for `id`, if there is one.
    fn find(&self, id: AggregatorID) -> (found: Option<usize>)
        ensures
            match found {
                Some(i) => first_for(self.aggregators@, id, i as int) && self@.contains_key(id)
                    && self@[id] == self.aggregators@[i as int]@,
                None => !self@.contains_key(id) && forall|j: int|
                    0 <= j < self.aggregators@.len() ==> self.aggregators@[j]@.id != id,
            },
    {
        let mut i: usize = 0;
        while i < self.aggregators.len()
            invariant
                i <= self.aggregators@.len(),
                forall|k: int| 0 <= k < i ==> self.aggregators@[k]@.id != id,
            decreases self.aggregators@.len() - i,
        {
            if self.aggregators[i].id() == id {
                proof {
                    lemma_first_is_entry(self.aggregators@, id, i as int);
                }
                return Some(i);
            }
            i += 1;
        }
        proof {
            lemma_none_is_absent(self.aggregators@, id);
        }
        None
    }

    /// The aggregator for `id`, if this transaction has touched that counter.
    pub fn get(&self, id: AggregatorID) -> (found: Option<&Aggregator>)
        ensures
            match found {
                Some(aggregator) => self@.contains_key(id) && aggregator@ == self@[id]
                    && aggregator@.id == id,
                None => !self@.contains_key(id),
            },
    {
        match self.find(id) {
            Some(i) => Some(&self.aggregators[i]),
            None => None,
        }
    }

    /// The aggregator for `id`: the one already there, whatever `limit` says,
    /// or a fresh one with that limit, which is added.
    ///
    /// What the caller leaves in the aggregator becomes the entry for `id`,
    /// and no other entry changes. Every operation of an aggregator leaves it
    /// standing for the counter it stood for, which is all that this asks of
    /// the caller.
    pub fn get_or_create(&mut self, id: AggregatorID, limit: u128) -> (aggregator: &mut Aggregator)
        ensures
            aggregator@ == entry(old(self)@, id, limit),
            aggregator@.id == id,
            final(aggregator)@.id == id ==> final(self)@ == old(self)@.insert(
                id,
                final(aggregator)@,
            ),
            final(aggregator)@.id == id && old(self).wf() ==> final(self).wf(),
    {
        let i = match self.find(id) {
            Some(i) => i,
            None => {
                let fresh = Aggregator::new(id, limit);
                proof {
                    lemma_push(self.aggregators@, fresh);
                }
                self.aggregators.push(fresh);
                self.aggregators.len() - 1
            },
        };
        proof {
            let held = self.aggregators@;
            lemma_first_is_entry(held, id, i as int);
            assert(as_map(held) =~= old(self)@.insert(id, held[i as int]@));
            assert forall|replacement: Aggregator| replacement@.id == id implies as_map(
                #[trigger] held.update(i as int, replacement),
            ) == as_map(held).insert(id, replacement@) && (distinct(held) ==> distinct(
                held.update(i as int, replacement),
            )) by {
                lemma_update(held, id, i as int, replacement);
            }
        }
        &mut self.aggregators[i]
    }

    /// Removes the aggregator for `id`. Where there is none, nothing changes.
    pub fn remove(&mut self, id: AggregatorID)
        ensures
            final(self)@ == old(self)@.remove(id),
            old(self).wf() ==> final(self).wf(),
    {
        let ghost before = self.aggregators@;
        let mut i: usize = 0;
        while i < self.aggregators.len()
            invariant
                i <= self.aggregators@.len(),
                forall|k: int| 0 <= k < i ==> self.aggregators@[k]@.id != id,
                as_map(self.aggregators@).remove(id) == as_map(before).remove(id),
                distinct(before) ==> distinct(self.aggregators@),
            decreases self.aggregators@.len() - i,
        {
            if self.aggregators[i].id() == id {
                proof {
                    lemma_remove(self.aggregators@, id, i as int);
                }
                self.aggregators.remove(i);
            } else {
                i += 1;
            }
        }
        proof {
            lemma_none_is_absent(self.aggregators@, id);
            assert(self@.remove(id) =~= self@);
        }
    }
}

} // verus!
