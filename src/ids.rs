//! Identifiers for renderer resources, handed out per category.
use std::collections::HashMap;
use vstd::prelude::*;

verus! {

broadcast use vstd::std_specs::hash::group_hash_axioms;

/// The integer type of identifier values.
pub type IDSize = u32;

/// The category an identifier belongs to. Each category has its own counter.
#[derive(Copy, Clone, Debug, PartialEq, Eq, Hash, Structural)]
pub enum IDType {
    Vertex,
    Index,
    Texture,
    DrawParameter,
    Perspective,
    View,
    Model,
}

/// A distinct small number for each category.
pub open spec fn category_index(t: IDType) -> u32 {
    match t {
        IDType::Vertex => 0,
        IDType::Index => 1,
        IDType::Texture => 2,
        IDType::DrawParameter => 3,
        IDType::Perspective => 4,
        IDType::View => 5,
        IDType::Model => 6,
    }
}

impl IDType {
    pub fn index(&self) -> (r: u32)
        ensures
            r == category_index(*self),
    {
        match self {
            IDType::Vertex => 0,
            IDType::Index => 1,
            IDType::Texture => 2,
            IDType::DrawParameter => 3,
            IDType::Perspective => 4,
            IDType::View => 5,
            IDType::Model => 6,
        }
    }
}

/// A value handed out by an `IDManager`.
#[derive(Copy, Clone, Debug, PartialEq, Eq, Hash, Structural)]
pub struct ID {
    id: IDSize,
}

impl ID {
    /// Draws the next identifier of category `id_type` from `manager`.
    pub fn new(manager: &mut IDManager, id_type: IDType) -> (r: ID)
        requires
            old(manager).issued()[id_type] < IDSize::MAX,
        ensures
            r.value() == old(manager).issued()[id_type] + 1,
            final(manager).issued() == allocated(old(manager).issued(), id_type),
    {
        ID { id: manager.get_id(id_type) }
    }

    pub closed spec fn value(&self) -> IDSize {
        self.id
    }

    pub fn get_id(&self) -> (r: IDSize)
        ensures
            r == self.value(),
    {
        self.id
    }
}

/// The counts of a manager that has handed out nothing yet.
pub open spec fn fresh_counts() -> Map<IDType, nat> {
    Map::new(|t: IDType| true, |t: IDType| 0nat)
}

/// The counts after one more identifier of category `t` was handed out.
pub open spec fn allocated(counts: Map<IDType, nat>, t: IDType) -> Map<IDType, nat> {
    counts.insert(t, counts[t] + 1)
}

/// Per-category counters. The n-th identifier of a category is n, starting at 1;
/// nothing is ever handed back.
pub struct IDManager {
    map: HashMap<u32, IDSize>,
}

impl IDManager {
    /// How many identifiers of each category have been handed out.
    pub closed spec fn issued(&self) -> Map<IDType, nat> {
        Map::new(
            |t: IDType| true,
            |t: IDType|
                if self.map@.contains_key(category_index(t)) {
                    self.map@[category_index(t)] as nat
                } else {
                    0nat
                },
        )
    }

    /// Every category has a count.
    pub proof fn lemma_issued_total(&self)
        ensures
            self.issued().dom() == Set::<IDType>::full(),
    {
        assert(self.issued().dom() =~= Set::<IDType>::full());
    }

    pub fn new() -> (r: IDManager)
        ensures
            r.issued() == fresh_counts(),
    {
        let r = IDManager { map: HashMap::new() };
        assert(r.issued() =~= fresh_counts());
        r
    }

    /// How many identifiers of category `id_type` have been handed out.
    pub fn issued_count(&self, id_type: IDType) -> (r: IDSize)
        ensures
            r == self.issued()[id_type],
    {
        match self.map.get(&id_type.index()) {
            Some(c) => *c,
            None => 0,
        }
    }

    /// Hands out the next identifier value of category `id_type`.
    pub fn get_id(&mut self, id_type: IDType) -> (r: IDSize)
        requires
            old(self).issued()[id_type] < IDSize::MAX,
        ensures
            r == old(self).issued()[id_type] + 1,
            final(self).issued() == allocated(old(self).issued(), id_type),
    {
        let key = id_type.index();
        let count: IDSize = match self.map.get(&key) {
            Some(c) => *c,
            None => 0,
        };
        let id = count + 1;
        self.map.insert(key, id);
        assert(self.issued() =~= allocated(old(self).issued(), id_type));
        id
    }
}

/// How many of `requests` ask for category `t`.
pub open spec fn occurrences(requests: Seq<IDType>, t: IDType) -> nat
    decreases requests.len(),
{
    if requests.len() == 0 {
        0
    } else {
        occurrences(requests.drop_last(), t) + if requests.last() == t {
            1nat
        } else {
            0nat
        }
    }
}

/// The counts after serving `requests` in order, starting from `start`.
pub open spec fn counts_after(start: Map<IDType, nat>, requests: Seq<IDType>) -> Map<IDType, nat>
    decreases requests.len(),
{
    if requests.len() == 0 {
        start
    } else {
        allocated(counts_after(start, requests.drop_last()), requests.last())
    }
}

/// The value handed out for the request at position `i` when `requests` are served in order.
pub open spec fn issued_at(start: Map<IDType, nat>, requests: Seq<IDType>, i: int) -> nat {
    counts_after(start, requests.take(i))[requests[i]] + 1
}

proof fn lemma_counts_are_occurrences(requests: Seq<IDType>, t: IDType)
    ensures
        counts_after(fresh_counts(), requests)[t] == occurrences(requests, t),
    decreases requests.len(),
{
    if requests.len() > 0 {
        lemma_counts_are_occurrences(requests.drop_last(), t);
        lemma_counts_are_occurrences(requests.drop_last(), requests.last());
    }
}

proof fn lemma_occurrences_grow(requests: Seq<IDType>, t: IDType, a: int, b: int)
    requires
        0 <= a <= b <= requests.len(),
    ensures
        occurrences(requests.take(a), t) <= occurrences(requests.take(b), t),
    decreases b - a,
{
    if a < b {
        lemma_occurrences_grow(requests, t, a, b - 1);
        assert(requests.take(b).drop_last() =~= requests.take(b - 1));
    }
}

/// Starting from a fresh manager, the value handed out for a request is the number of
/// requests of its category up to and including that one.
pub proof fn lemma_issued_counts_up(requests: Seq<IDType>, i: int)
    requires
        0 <= i < requests.len(),
    ensures
        issued_at(fresh_counts(), requests, i) == occurrences(requests.take(i + 1), requests[i]),
{
    lemma_counts_are_occurrences(requests.take(i), requests[i]);
    assert(requests.take(i + 1).drop_last() =~= requests.take(i));
}

/// Starting from a fresh manager, two requests of the same category never receive the
/// same value: the later one receives a larger one.
pub proof fn lemma_issued_distinct(requests: Seq<IDType>, i: int, j: int)
    requires
        0 <= i < j < requests.len(),
        requests[i] == requests[j],
    ensures
        issued_at(fresh_counts(), requests, i) < issued_at(fresh_counts(), requests, j),
{
    lemma_issued_counts_up(requests, i);
    lemma_issued_counts_up(requests, j);
    lemma_counts_are_occurrences(requests.take(j), requests[j]);
    lemma_occurrences_grow(requests, requests[i], i + 1, j);
}

/// Starting from a fresh manager, `n` requests that all ask for one category receive
/// exactly the values 1 to `n`, in that order.
pub proof fn lemma_one_category(requests: Seq<IDType>, t: IDType)
    requires
        forall|k: int| 0 <= k < requests.len() ==> requests[k] == t,
    ensures
        forall|i: int|
            0 <= i < requests.len() ==> #[trigger] issued_at(fresh_counts(), requests, i) == i + 1,
{
    assert forall|i: int| 0 <= i < requests.len() implies #[trigger] issued_at(
        fresh_counts(),
        requests,
        i,
    ) == i + 1 by {
        lemma_issued_counts_up(requests, i);
        lemma_all_one_category(requests, t, i + 1);
    }
}

proof fn lemma_all_one_category(requests: Seq<IDType>, t: IDType, m: int)
    requires
        0 <= m <= requests.len(),
        forall|k: int| 0 <= k < requests.len() ==> requests[k] == t,
    ensures
        occurrences(requests.take(m), t) == m,
    decreases m,
{
    if m > 0 {
        lemma_all_one_category(requests, t, m - 1);
        assert(requests.take(m).drop_last() =~= requests.take(m - 1));
    }
}

} // verus!
