//! Layered memory: scratch, session, episodic, semantic and pattern items,
//! and the in-memory store that keeps them.
//!
//! Relevance scores are `f64` values; they are held here by their IEEE-754
//! bit patterns and compared as IEEE-754 compares them.

use vstd::prelude::*;

use crate::outside::{ExJsonValue, Timestamp};
use crate::tools::{contains_text, first_match};

verus! {

/// Which memory layer an item belongs to.
#[derive(Debug, Clone, Copy, PartialEq, Eq, Structural, Hash)]
pub enum MemoryLayer {
    /// Per-creature ephemeral working memory.
    Scratch,
    /// Current run summaries and constraints.
    Session,
    /// Past problems, actions, outcomes.
    Episodic,
    /// Concept graph of repo, systems, services, owners, risks.
    Semantic,
    /// Reusable skills and successful procedures.
    Pattern,
}

/// A stored memory item.
#[derive(Debug, Clone)]
pub struct MemoryItem {
    /// Unique memory ID.
    pub id: u128,
    /// Which layer this memory belongs to.
    pub layer: MemoryLayer,
    /// Human-readable label or key.
    pub key: String,
    /// The memory content.
    pub content: String,
    /// Structured metadata.
    pub metadata: serde_json::Value,
    /// When this memory was created.
    pub created_at: Timestamp,
    /// When this memory was last accessed.
    pub last_accessed: Timestamp,
    /// Optional session ID this memory is scoped to.
    pub session_id: Option<u128>,
    /// Optional creature ID this memory is scoped to.
    pub creature_id: Option<u128>,
    /// Relevance score (0.0 to 1.0, higher = more relevant), as the
    /// IEEE-754 bits of an `f64`.
    pub relevance_bits: u64,
}

impl MemoryItem {
    /// A copy of the item.
    pub fn duplicate(&self) -> (c: MemoryItem)
        ensures
            c == *self,
    {
        MemoryItem {
            id: self.id,
            layer: self.layer,
            key: self.key.clone(),
            content: self.content.clone(),
            metadata: self.metadata.clone(),
            created_at: self.created_at,
            last_accessed: self.last_accessed,
            session_id: self.session_id,
            creature_id: self.creature_id,
            relevance_bits: self.relevance_bits,
        }
    }
}

/// A query against the memory store.
#[derive(Debug, Clone)]
pub struct MemoryQuery {
    /// Filter by layer.
    pub layer: Option<MemoryLayer>,
    /// Free-text search query.
    pub query: Option<String>,
    /// Filter by session ID.
    pub session_id: Option<u128>,
    /// Filter by creature ID.
    pub creature_id: Option<u128>,
    /// Maximum number of results.
    pub limit: usize,
    /// Minimum relevance threshold, as the IEEE-754 bits of an `f64`.
    pub min_relevance_bits: Option<u64>,
}

impl Default for MemoryQuery {
    /// No filter, and at most 20 results.
    fn default() -> (q: MemoryQuery)
        ensures
            q.layer is None,
            q.query is None,
            q.session_id is None,
            q.creature_id is None,
            q.limit == 20,
            q.min_relevance_bits is None,
    {
        MemoryQuery {
            layer: None,
            query: None,
            session_id: None,
            creature_id: None,
            limit: 20,
            min_relevance_bits: None,
        }
    }
}

/// Whether the `f64` with these bits is NaN.
pub open spec fn f64_is_nan(bits: u64) -> bool {
    let m = bits % 0x8000_0000_0000_0000;
    m / 0x10_0000_0000_0000 == 0x7ff && m % 0x10_0000_0000_0000 != 0
}

/// The position of a non-NaN `f64` on the number line: its magnitude bits,
/// negated for negative numbers (both zeros sit at 0).
pub open spec fn f64_key(bits: u64) -> int {
    let m = bits % 0x8000_0000_0000_0000;
    if bits / 0x8000_0000_0000_0000 == 0 {
        m as int
    } else {
        -(m as int)
    }
}

/// IEEE-754 `<` on the `f64`s with these bits: false when either is NaN.
pub open spec fn f64_lt(a: u64, b: u64) -> bool {
    !f64_is_nan(a) && !f64_is_nan(b) && f64_key(a) < f64_key(b)
}

/// IEEE-754 `<` on `f64` bit patterns.
pub fn f64_bits_lt(a: u64, b: u64) -> (r: bool)
    ensures
        r == f64_lt(a, b),
{
    let ma = a % 0x8000_0000_0000_0000;
    let mb = b % 0x8000_0000_0000_0000;
    let nan_a = ma / 0x10_0000_0000_0000 == 0x7ff && ma % 0x10_0000_0000_0000 != 0;
    let nan_b = mb / 0x10_0000_0000_0000 == 0x7ff && mb % 0x10_0000_0000_0000 != 0;
    if nan_a || nan_b {
        return false;
    }
    let neg_a = a / 0x8000_0000_0000_0000 != 0;
    let neg_b = b / 0x8000_0000_0000_0000 != 0;
    if !neg_a && !neg_b {
        ma < mb
    } else if neg_a && neg_b {
        mb < ma
    } else if neg_a {
        !(ma == 0 && mb == 0)
    } else {
        false
    }
}

/// Whether an item answers a query: its layer, session, creature, relevance
/// (not below the minimum) and text (the query occurs in its content or its
/// key) agree with what the query asks.
pub open spec fn matches_query(item: MemoryItem, q: MemoryQuery) -> bool {
    &&& (q.layer matches Some(l) ==> item.layer == l)
    &&& (q.session_id matches Some(s) ==> item.session_id == Some(s))
    &&& (q.creature_id matches Some(c) ==> item.creature_id == Some(c))
    &&& (q.min_relevance_bits matches Some(m) ==> !f64_lt(item.relevance_bits, m))
    &&& (q.query matches Some(t) ==> (first_match(item.content@, t@) is Some || first_match(
        item.key@,
        t@,
    ) is Some))
}

/// The items answering a query, in order of storage, at most `limit` of them.
pub open spec fn retrieved(items: Seq<MemoryItem>, q: MemoryQuery) -> Seq<MemoryItem> {
    let all = items.filter(|i: MemoryItem| matches_query(i, q));
    if all.len() > q.limit {
        all.take(q.limit as int)
    } else {
        all
    }
}

/// Whether an item answers a query.
pub fn item_matches(item: &MemoryItem, q: &MemoryQuery) -> (b: bool)
    ensures
        b == matches_query(*item, *q),
{
    match q.layer {
        Some(l) => {
            if item.layer != l {
                return false;
            }
        },
        None => {},
    }
    match q.session_id {
        Some(s) => {
            match item.session_id {
                Some(t) => {
                    if t != s {
                        return false;
                    }
                },
                None => {
                    return false;
                },
            }
        },
        None => {},
    }
    match q.creature_id {
        Some(c) => {
            match item.creature_id {
                Some(t) => {
                    if t != c {
                        return false;
                    }
                },
                None => {
                    return false;
                },
            }
        },
        None => {},
    }
    match q.min_relevance_bits {
        Some(m) => {
            if f64_bits_lt(item.relevance_bits, m) {
                return false;
            }
        },
        None => {},
    }
    match &q.query {
        Some(t) => {
            if !contains_text(item.content.as_str(), t.as_str()) && !contains_text(
                item.key.as_str(),
                t.as_str(),
            ) {
                return false;
            }
        },
        None => {},
    }
    true
}

/// An in-memory memory store: items in order of storage.
pub struct InMemoryStore {
    items: Vec<MemoryItem>,
}

impl InMemoryStore {
    /// The stored items, in order of storage.
    pub closed spec fn contents(&self) -> Seq<MemoryItem> {
        self.items@
    }

    /// An empty store.
    pub fn new() -> (s: InMemoryStore)
        ensures
            s.contents() == Seq::<MemoryItem>::empty(),
    {
        InMemoryStore { items: Vec::new() }
    }

    /// Store an item; gives its ID.
    pub fn remember(&mut self, item: MemoryItem) -> (id: u128)
        ensures
            id == item.id,
            final(self).contents() == old(self).contents().push(item),
    {
        let id = item.id;
        self.items.push(item);
        id
    }

    /// The stored items answering a query, in order of storage, at most
    /// `limit` of them.
    pub fn retrieve(&self, query: &MemoryQuery) -> (r: Vec<MemoryItem>)
        ensures
            r@ == retrieved(self.contents(), *query),
    {
        let ghost pred = |i: MemoryItem| matches_query(i, *query);
        let mut all: Vec<MemoryItem> = Vec::new();
        let mut i: usize = 0;
        while i < self.items.len()
            invariant
                i <= self.items@.len(),
                pred == (|i: MemoryItem| matches_query(i, *query)),
                all@ == self.items@.take(i as int).filter(pred),
            decreases self.items.len() - i,
        {
            proof {
                assert(self.items@.take(i + 1).drop_last() =~= self.items@.take(i as int));
                assert(self.items@.take(i + 1).last() == self.items@[i as int]);
            }
            let ghost before = all@;
            if item_matches(&self.items[i], query) {
                all.push(self.items[i].duplicate());
                proof {
                    assert(pred(self.items@[i as int]));
                }
            } else {
                proof {
                    assert(!pred(self.items@[i as int]));
                }
            }
            proof {
                reveal(Seq::filter);
                let t1 = self.items@.take(i + 1);
                assert(t1.filter(pred) == (if pred(t1.last()) {
                    t1.drop_last().filter(pred).push(t1.last())
                } else {
                    t1.drop_last().filter(pred)
                }));
            }
            i = i + 1;
        }
        proof {
            assert(self.items@.take(i as int) =~= self.items@);
        }
        if all.len() > query.limit {
            all.truncate(query.limit);
        }
        all
    }

    /// Delete every item with this ID.
    pub fn forget(&mut self, id: u128)
        ensures
            final(self).contents() == without_id(old(self).contents(), id),
    {
        let ghost pred = |i: MemoryItem| i.id != id;
        let mut old_items: Vec<MemoryItem> = Vec::new();
        std::mem::swap(&mut old_items, &mut self.items);
        let mut kept: Vec<MemoryItem> = Vec::new();
        let mut i: usize = 0;
        while i < old_items.len()
            invariant
                i <= old_items@.len(),
                pred == (|i: MemoryItem| i.id != id),
                kept@ == old_items@.take(i as int).filter(pred),
            decreases old_items.len() - i,
        {
            proof {
                assert(old_items@.take(i + 1).drop_last() =~= old_items@.take(i as int));
                assert(old_items@.take(i + 1).last() == old_items@[i as int]);
            }
            if old_items[i].id != id {
                kept.push(old_items[i].duplicate());
            }
            proof {
                reveal(Seq::filter);
                let t1 = old_items@.take(i + 1);
                assert(t1.filter(pred) == (if pred(t1.last()) {
                    t1.drop_last().filter(pred).push(t1.last())
                } else {
                    t1.drop_last().filter(pred)
                }));
            }
            i = i + 1;
        }
        proof {
            assert(old_items@.take(i as int) =~= old_items@);
        }
        self.items = kept;
    }

    /// Drop every item of a layer; gives how many were dropped.
    pub fn compact(&mut self, layer: MemoryLayer) -> (removed: u64)
        ensures
            final(self).contents() == without_layer(old(self).contents(), layer),
            removed == old(self).contents().len() - final(self).contents().len(),
    {
        let ghost pred = |i: MemoryItem| i.layer != layer;
        let mut old_items: Vec<MemoryItem> = Vec::new();
        std::mem::swap(&mut old_items, &mut self.items);
        let before = old_items.len();
        let mut kept: Vec<MemoryItem> = Vec::new();
        let mut i: usize = 0;
        while i < old_items.len()
            invariant
                i <= old_items@.len(),
                pred == (|i: MemoryItem| i.layer != layer),
                kept@ == old_items@.take(i as int).filter(pred),
                kept@.len() <= i,
            decreases old_items.len() - i,
        {
            proof {
                assert(old_items@.take(i + 1).drop_last() =~= old_items@.take(i as int));
                assert(old_items@.take(i + 1).last() == old_items@[i as int]);
            }
            if old_items[i].layer != layer {
                kept.push(old_items[i].duplicate());
            }
            proof {
                reveal(Seq::filter);
                let t1 = old_items@.take(i + 1);
                assert(t1.filter(pred) == (if pred(t1.last()) {
                    t1.drop_last().filter(pred).push(t1.last())
                } else {
                    t1.drop_last().filter(pred)
                }));
            }
            i = i + 1;
        }
        proof {
            assert(old_items@.take(i as int) =~= old_items@);
        }
        let after = kept.len();
        self.items = kept;
        (before - after) as u64
    }
}


/// The items without those of an ID, in order.
pub open spec fn without_id(items: Seq<MemoryItem>, id: u128) -> Seq<MemoryItem> {
    items.filter(|i: MemoryItem| i.id != id)
}

/// The items without those of a layer, in order.
pub open spec fn without_layer(items: Seq<MemoryItem>, layer: MemoryLayer) -> Seq<MemoryItem> {
    items.filter(|i: MemoryItem| i.layer != layer)
}

/// A retrieval gives at most the query's limit of stored items, each of
/// which agrees with every filter the query sets: its layer, session,
/// creature, relevance floor and text. When fewer than the limit come back,
/// every stored item that agrees with all of them is among them.
pub proof fn law_retrieved_items_answer_the_query(items: Seq<MemoryItem>, q: MemoryQuery)
    ensures
        retrieved(items, q).len() <= q.limit,
        forall|i: int|
            0 <= i < retrieved(items, q).len() ==> {
                let r = #[trigger] retrieved(items, q)[i];
                &&& items.contains(r)
                &&& (q.layer matches Some(l) ==> r.layer == l)
                &&& (q.session_id matches Some(sid) ==> r.session_id == Some(sid))
                &&& (q.creature_id matches Some(c) ==> r.creature_id == Some(c))
                &&& (q.min_relevance_bits matches Some(m) ==> !f64_lt(r.relevance_bits, m))
                &&& (q.query matches Some(t) ==> (first_match(r.content@, t@) is Some
                    || first_match(r.key@, t@) is Some))
            },
        retrieved(items, q).len() < q.limit ==> forall|j: int|
            0 <= j < items.len() && {
                let it = #[trigger] items[j];
                &&& (q.layer matches Some(l) ==> it.layer == l)
                &&& (q.session_id matches Some(sid) ==> it.session_id == Some(sid))
                &&& (q.creature_id matches Some(c) ==> it.creature_id == Some(c))
                &&& (q.min_relevance_bits matches Some(m) ==> !f64_lt(it.relevance_bits, m))
                &&& (q.query matches Some(t) ==> (first_match(it.content@, t@) is Some
                    || first_match(it.key@, t@) is Some))
            } ==> retrieved(items, q).contains(items[j]),
{
    broadcast use vstd::seq_lib::group_filter_ensures;
    let pred = |i: MemoryItem| matches_query(i, q);
    let all = items.filter(pred);
    assert forall|i: int| 0 <= i < retrieved(items, q).len() implies items.contains(
        #[trigger] retrieved(items, q)[i],
    ) && matches_query(retrieved(items, q)[i], q) by {
        assert(retrieved(items, q)[i] == all[i]);
        assert(all.contains(all[i]));
        items.lemma_filter_contains_rev(pred, all[i]);
        assert(pred(all[i]));
    }
    assert forall|j: int| 0 <= j < items.len() && matches_query(#[trigger] items[j], q)
        && retrieved(items, q).len() < q.limit implies retrieved(items, q).contains(items[j]) by {
        assert(pred(items[j]));
        assert(all.contains(items[j]));
    }
}

/// An item remembered answers every query it matches, after the items
/// stored before it, as long as fewer than the query's limit did.
pub proof fn law_remembered_item_is_retrieved(items: Seq<MemoryItem>, item: MemoryItem, q: MemoryQuery)
    requires
        matches_query(item, q),
        items.filter(|i: MemoryItem| matches_query(i, q)).len() < q.limit,
    ensures
        retrieved(items.push(item), q) == retrieved(items, q).push(item),
{
    let pred = |i: MemoryItem| matches_query(i, q);
    reveal(Seq::filter);
    assert(items.push(item).drop_last() =~= items);
    assert(items.push(item).filter(pred) == items.filter(pred).push(item));
}

/// Once an ID is forgotten, no item has it.
pub proof fn law_forgotten_item_is_gone(items: Seq<MemoryItem>, id: u128)
    ensures
        forall|k: int| 0 <= k < without_id(items, id).len() ==> (#[trigger] without_id(items, id)[k]).id != id,
{
    items.filter_lemma(|i: MemoryItem| i.id != id);
}

/// Once a layer is compacted, no item of it is left.
pub proof fn law_compacted_layer_is_empty(items: Seq<MemoryItem>, layer: MemoryLayer)
    ensures
        forall|k: int|
            0 <= k < without_layer(items, layer).len() ==> (#[trigger] without_layer(items, layer)[k]).layer
                != layer,
{
    items.filter_lemma(|i: MemoryItem| i.layer != layer);
}

impl Default for InMemoryStore {
    /// An empty store.
    fn default() -> (s: InMemoryStore)
        ensures
            s.contents() == Seq::<MemoryItem>::empty(),
    {
        InMemoryStore::new()
    }
}

} // verus!
