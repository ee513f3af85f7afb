//! A bounded cache from ids to the last-known snapshot of an entity. When it is full,
//! the entry that was used least recently makes room for a new one.
use crate::controller::{Entity, EntityView, StoreError};
use lru_cache::LruCache;
use vstd::prelude::*;

verus! {

/// `lru_cache::LruCache`. Nothing is seen of what is inside such a value; what it holds
/// goes by the names `lru_entries` and `lru_capacity`.
#[verifier::external_type_specification]
#[verifier::external_body]
#[verifier::reject_recursive_types(K)]
#[verifier::reject_recursive_types(V)]
#[verifier::reject_recursive_types(S)]
pub struct ExLruCache<K: Eq + std::hash::Hash, V, S: std::hash::BuildHasher>(LruCache<K, V, S>);

/// The entries of a cache, each an id and a snapshot, from the least recently used
/// to the most recently used.
pub type Entries = Seq<(i32, EntityView)>;

/// What an `LruCache` holds, from the least recently used entry to the most recently
/// used one.
pub uninterp spec fn lru_entries(cache: LruCache<i32, Entity>) -> Seq<(i32, EntityView)>;

/// The number of entries that an `LruCache` was made to hold at most.
pub uninterp spec fn lru_capacity(cache: LruCache<i32, Entity>) -> usize;

/// No entries.
pub open spec fn no_entries() -> Entries {
    Seq::empty()
}

/// The snapshot filed under `id`, if there is one.
pub open spec fn lookup(entries: Entries, id: i32) -> Option<EntityView>
    decreases entries.len(),
{
    if entries.len() == 0 {
        None
    } else if entries.last().0 == id {
        Some(entries.last().1)
    } else {
        lookup(entries.drop_last(), id)
    }
}

/// The entries but for the one filed under `id`, in the same order.
pub open spec fn without(entries: Entries, id: i32) -> Entries
    decreases entries.len(),
{
    if entries.len() == 0 {
        entries
    } else if entries.last().0 == id {
        without(entries.drop_last(), id)
    } else {
        without(entries.drop_last(), id).push(entries.last())
    }
}

/// The entries after `id` was used: its entry, if there is one, is now the most
/// recently used.
pub open spec fn touched(entries: Entries, id: i32) -> Entries {
    match lookup(entries, id) {
        Some(snapshot) => without(entries, id).push((id, snapshot)),
        None => entries,
    }
}

/// The entries after `snapshot` was filed under `id` in a cache that holds at most
/// `capacity` entries: the new entry is the most recently used, it replaces an earlier
/// one under the same id, and where that makes one entry too many the least recently
/// used entry leaves.
pub open spec fn inserted(entries: Entries, id: i32, snapshot: EntityView, capacity: int) -> Entries {
    let grown = without(entries, id).push((id, snapshot));
    if grown.len() > capacity {
        grown.drop_first()
    } else {
        grown
    }
}

/// What an optional snapshot holds.
pub open spec fn option_view(found: Option<Entity>) -> Option<EntityView> {
    match found {
        Some(entity) => Some(entity@),
        None => None,
    }
}

/// What an optional reference to a snapshot points to, now.
pub open spec fn now_view(found: Option<&mut Entity>) -> Option<EntityView> {
    match found {
        Some(entity) => Some((*entity)@),
        None => None,
    }
}

/// `LruCache::new`: an empty cache that holds at most `capacity` entries.
#[verifier::external_body]
fn lru_new(capacity: usize) -> (cache: LruCache<i32, Entity>)
    ensures
        lru_entries(cache) == no_entries(),
        lru_capacity(cache) == capacity,
{
    LruCache::new(capacity)
}

/// `LruCache::get_mut`: a mutable reference to the snapshot filed under `id`, if there
/// is one; its entry becomes the most recently used, and holds in the end what the
/// reference holds in the end. The capacity stays. The call does not unwind.
#[verifier::external_body]
fn lru_get_mut(cache: &mut LruCache<i32, Entity>, id: i32) -> (found: Option<&mut Entity>)
    ensures
        now_view(found) == lookup(lru_entries(*old(cache)), id),
        found matches Some(entity) ==> lru_entries(*final(cache)) == without(
            lru_entries(*old(cache)),
            id,
        ).push((id, (*final(entity))@)),
        found is None ==> lru_entries(*final(cache)) == lru_entries(*old(cache)),
        lru_capacity(*final(cache)) == lru_capacity(*old(cache)),
    no_unwind
{
    cache.get_mut(&id)
}

/// `LruCache::insert`: files `snapshot` under `id` as the most recently used entry and
/// returns the snapshot that was filed there before, if any. Where the cache then holds
/// more than its capacity, its least recently used entry is removed. The capacity stays.
/// The call does not unwind.
#[verifier::external_body]
fn lru_insert(cache: &mut LruCache<i32, Entity>, id: i32, snapshot: Entity) -> (previous: Option<
    Entity,
>)
    ensures
        option_view(previous) == lookup(lru_entries(*old(cache)), id),
        lru_entries(*final(cache)) == inserted(
            lru_entries(*old(cache)),
            id,
            snapshot@,
            lru_capacity(*old(cache)) as int,
        ),
        lru_capacity(*final(cache)) == lru_capacity(*old(cache)),
    no_unwind
{
    cache.insert(id, snapshot)
}

/// `LruCache::remove`: removes the entry filed under `id` and returns its snapshot, if
/// there is one. The other entries keep their order, and the capacity stays. The call
/// does not unwind.
#[verifier::external_body]
fn lru_remove(cache: &mut LruCache<i32, Entity>, id: i32) -> (removed: Option<Entity>)
    ensures
        option_view(removed) == lookup(lru_entries(*old(cache)), id),
        lru_entries(*final(cache)) == without(lru_entries(*old(cache)), id),
        lru_capacity(*final(cache)) == lru_capacity(*old(cache)),
    no_unwind
{
    cache.remove(&id)
}

/// Whether no id is filed twice.
pub open spec fn distinct_ids(entries: Entries) -> bool {
    forall|i: int, j: int|
        0 <= i < j < entries.len() ==> (#[trigger] entries[i]).0 != (#[trigger] entries[j]).0
}

/// Whether some entry is filed under `id`.
pub open spec fn has_id(entries: Entries, id: i32) -> bool {
    exists|i: int| 0 <= i < entries.len() && (#[trigger] entries[i]).0 == id
}

/// The entries that are left once `id` is taken out are entries that were there, in
/// their order, and none of them is filed under `id`.
pub proof fn lemma_without(entries: Entries, id: i32)
    ensures
        without(entries, id).len() <= entries.len(),
        lookup(without(entries, id), id) is None,
        !has_id(without(entries, id), id),
        forall|other: i32| other != id ==> lookup(without(entries, id), other) == lookup(entries, other),
        forall|other: i32| has_id(without(entries, id), other) ==> has_id(entries, other),
        distinct_ids(entries) ==> distinct_ids(without(entries, id)),
        lookup(entries, id) is None ==> without(entries, id) == entries,
        lookup(entries, id) is Some ==> without(entries, id).len() < entries.len(),
    decreases entries.len(),
{
    if entries.len() == 0 {
    } else {
        let rest = entries.drop_last();
        lemma_without(rest, id);
        let kept = without(rest, id);
        assert forall|other: i32| other != id implies lookup(without(entries, id), other) == lookup(
            entries,
            other,
        ) by {
            assert(lookup(kept, other) == lookup(rest, other));
            if entries.last().0 != id {
                let out = kept.push(entries.last());
                assert(out.drop_last() =~= kept);
                assert(out.last() == entries.last());
            }
        }
        if entries.last().0 == id {
            assert forall|other: i32| has_id(kept, other) implies has_id(entries, other) by {
                assert(has_id(rest, other));
                let i = choose|i: int| 0 <= i < rest.len() && (#[trigger] rest[i]).0 == other;
                assert(entries[i].0 == other);
            }
        } else {
            let out = kept.push(entries.last());
            assert(out.drop_last() =~= kept);
            assert forall|other: i32| has_id(out, other) implies has_id(entries, other) by {
                let i = choose|i: int| 0 <= i < out.len() && (#[trigger] out[i]).0 == other;
                if i < kept.len() {
                    assert(kept[i].0 == other);
                    assert(has_id(kept, other));
                    assert(has_id(rest, other));
                    let j = choose|j: int| 0 <= j < rest.len() && (#[trigger] rest[j]).0 == other;
                    assert(entries[j].0 == other);
                } else {
                    assert(entries[entries.len() - 1].0 == other);
                }
            }
            assert(!has_id(out, id)) by {
                if has_id(out, id) {
                    let i = choose|i: int| 0 <= i < out.len() && (#[trigger] out[i]).0 == id;
                    if i < kept.len() {
                        assert(kept[i].0 == id);
                        assert(has_id(kept, id));
                    }
                }
            }
            if distinct_ids(entries) {
                assert(distinct_ids(rest)) by {
                    assert forall|i: int, j: int| 0 <= i < j < rest.len() implies (#[trigger] rest[i]).0
                        != (#[trigger] rest[j]).0 by {
                        assert(entries[i].0 != entries[j].0);
                    }
                }
                assert forall|i: int, j: int| 0 <= i < j < out.len() implies (#[trigger] out[i]).0
                    != (#[trigger] out[j]).0 by {
                    if j < kept.len() {
                        assert(kept[i].0 != kept[j].0);
                    } else {
                        assert(kept[i].0 == out[i].0);
                        assert(has_id(kept, out[i].0));
                        assert(has_id(rest, out[i].0));
                        let k = choose|k: int| 0 <= k < rest.len() && (#[trigger] rest[k]).0 == out[i].0;
                        assert(entries[k].0 != entries[entries.len() - 1].0);
                    }
                }
            }
            if lookup(entries, id) is None {
                assert(out =~= entries);
            }
        }
    }
}

/// An id has a snapshot exactly where an entry is filed under it.
pub proof fn lemma_lookup_has_id(entries: Entries, id: i32)
    ensures
        lookup(entries, id) is Some <==> has_id(entries, id),
    decreases entries.len(),
{
    if entries.len() > 0 {
        let rest = entries.drop_last();
        lemma_lookup_has_id(rest, id);
        if entries.last().0 == id {
            assert(entries[entries.len() - 1].0 == id);
        } else {
            if has_id(rest, id) {
                let i = choose|i: int| 0 <= i < rest.len() && (#[trigger] rest[i]).0 == id;
                assert(entries[i].0 == id);
            }
            if has_id(entries, id) {
                let i = choose|i: int| 0 <= i < entries.len() && (#[trigger] entries[i]).0 == id;
                assert(rest[i].0 == id);
            }
        }
    }
}

/// Taking an id out twice leaves what taking it out once leaves.
pub proof fn lemma_without_idempotent(entries: Entries, id: i32)
    ensures
        without(without(entries, id), id) == without(entries, id),
{
    lemma_without(entries, id);
    lemma_without(without(entries, id), id);
}

/// What a newly filed snapshot changes: it is found under its id as long as the cache
/// holds anything at all, the cache stays within its capacity, and no id is filed twice.
pub proof fn lemma_inserted(entries: Entries, id: i32, snapshot: EntityView, capacity: int)
    requires
        entries.len() <= capacity,
    ensures
        inserted(entries, id, snapshot, capacity).len() <= capacity,
        capacity > 0 ==> lookup(inserted(entries, id, snapshot, capacity), id) == Some(snapshot),
        distinct_ids(entries) ==> distinct_ids(inserted(entries, id, snapshot, capacity)),
{
    lemma_without(entries, id);
    let kept = without(entries, id);
    let grown = kept.push((id, snapshot));
    assert(grown.drop_last() =~= kept);
    let out = inserted(entries, id, snapshot, capacity);
    if grown.len() > capacity {
        if capacity > 0 {
            assert(out.last() == grown.last());
        }
    }
    if distinct_ids(entries) {
        assert forall|i: int, j: int| 0 <= i < j < grown.len() implies (#[trigger] grown[i]).0
            != (#[trigger] grown[j]).0 by {
            if j < kept.len() {
                assert(kept[i].0 != kept[j].0);
            } else {
                assert(kept[i].0 == grown[i].0);
                if grown[i].0 == id {
                    assert(has_id(kept, id));
                }
            }
        }
        if grown.len() > capacity {
            assert forall|i: int, j: int| 0 <= i < j < out.len() implies (#[trigger] out[i]).0
                != (#[trigger] out[j]).0 by {
                assert(grown[i + 1].0 != grown[j + 1].0);
            }
        }
    }
}

/// Filing a snapshot under `id` behind the entries that are not filed under `id` makes
/// no list longer than the cache's bound allows, and files no id twice.
pub proof fn lemma_moved_to_back(entries: Entries, id: i32, snapshot: EntityView)
    requires
        distinct_ids(entries),
        lookup(entries, id) is Some,
    ensures
        without(entries, id).push((id, snapshot)).len() == entries.len(),
        distinct_ids(without(entries, id).push((id, snapshot))),
{
    lemma_without(entries, id);
    lemma_without_len(entries, id);
    let kept = without(entries, id);
    let out = kept.push((id, snapshot));
    assert forall|i: int, j: int| 0 <= i < j < out.len() implies (#[trigger] out[i]).0 != (
    #[trigger] out[j]).0 by {
        if j < kept.len() {
            assert(kept[i].0 != kept[j].0);
        } else {
            assert(kept[i].0 == out[i].0);
            if out[i].0 == id {
                assert(has_id(kept, id));
            }
        }
    }
}

/// What a use of an id changes: nothing but the order. Every id keeps its snapshot.
pub proof fn lemma_touched(entries: Entries, id: i32)
    ensures
        distinct_ids(entries) ==> touched(entries, id).len() == entries.len(),
        touched(entries, id).len() <= entries.len(),
        forall|other: i32| lookup(touched(entries, id), other) == lookup(entries, other),
        distinct_ids(entries) ==> distinct_ids(touched(entries, id)),
{
    lemma_without(entries, id);
    match lookup(entries, id) {
        Some(snapshot) => {
            let kept = without(entries, id);
            let out = kept.push((id, snapshot));
            assert(out.drop_last() =~= kept);
            if distinct_ids(entries) {
                assert forall|i: int, j: int| 0 <= i < j < out.len() implies (#[trigger] out[i]).0
                    != (#[trigger] out[j]).0 by {
                    if j < kept.len() {
                        assert(kept[i].0 != kept[j].0);
                    } else {
                        assert(kept[i].0 == out[i].0);
                        if out[i].0 == id {
                            assert(has_id(kept, id));
                        }
                    }
                }
                lemma_without_len(entries, id);
            }
        },
        None => {},
    }
}

/// Where no id is filed twice, taking out an id that is there takes out one entry.
pub proof fn lemma_without_len(entries: Entries, id: i32)
    requires
        distinct_ids(entries),
    ensures
        lookup(entries, id) is Some ==> without(entries, id).len() == entries.len() - 1,
    decreases entries.len(),
{
    if entries.len() > 0 {
        let rest = entries.drop_last();
        assert(distinct_ids(rest)) by {
            assert forall|i: int, j: int| 0 <= i < j < rest.len() implies (#[trigger] rest[i]).0
                != (#[trigger] rest[j]).0 by {
                assert(entries[i].0 != entries[j].0);
            }
        }
        lemma_without_len(rest, id);
        lemma_without(rest, id);
        if entries.last().0 == id {
            lemma_lookup_has_id(rest, id);
            if has_id(rest, id) {
                let i = choose|i: int| 0 <= i < rest.len() && (#[trigger] rest[i]).0 == id;
                assert(entries[i].0 != entries[entries.len() - 1].0);
            }
        }
    }
}

/// Filing the same snapshot under the same id twice leaves what filing it once leaves:
/// two readers that miss at the same time may both file what they read.
pub proof fn lemma_put_twice(entries: Entries, id: i32, snapshot: EntityView, capacity: int)
    requires
        capacity > 0,
        entries.len() <= capacity,
    ensures
        inserted(inserted(entries, id, snapshot, capacity), id, snapshot, capacity) == inserted(
            entries,
            id,
            snapshot,
            capacity,
        ),
{
    lemma_without(entries, id);
    let kept = without(entries, id);
    let grown = kept.push((id, snapshot));
    let once = inserted(entries, id, snapshot, capacity);
    let rest = if grown.len() > capacity {
        kept.drop_first()
    } else {
        kept
    };
    assert(once =~= rest.push((id, snapshot)));
    assert(!has_id(rest, id)) by {
        if has_id(rest, id) {
            let i = choose|i: int| 0 <= i < rest.len() && (#[trigger] rest[i]).0 == id;
            if grown.len() > capacity {
                assert(kept[i + 1].0 == id);
            } else {
                assert(kept[i].0 == id);
            }
            assert(has_id(kept, id));
        }
    }
    lemma_lookup_has_id(rest, id);
    lemma_without(rest, id);
    assert(once.drop_last() =~= rest);
    assert(without(once, id) == rest);
}

/// One step of a history of one id: a snapshot is filed under it, or it is looked up.
pub enum CacheOp {
    Put(EntityView),
    Get,
}

/// The entries after a history of puts and gets on `id`.
pub open spec fn after_history(entries: Entries, capacity: int, id: i32, history: Seq<CacheOp>) -> Entries
    decreases history.len(),
{
    if history.len() == 0 {
        entries
    } else {
        let before = after_history(entries, capacity, id, history.drop_last());
        match history.last() {
            CacheOp::Put(snapshot) => inserted(before, id, snapshot, capacity),
            CacheOp::Get => touched(before, id),
        }
    }
}

/// The snapshot of the most recent put in a history, if it holds one.
pub open spec fn last_put(history: Seq<CacheOp>) -> Option<EntityView>
    decreases history.len(),
{
    if history.len() == 0 {
        None
    } else {
        match history.last() {
            CacheOp::Put(snapshot) => Some(snapshot),
            CacheOp::Get => last_put(history.drop_last()),
        }
    }
}

/// Coherence: after any history of puts and gets on one id, in a cache that holds at
/// least one entry, the id has the snapshot of the most recent put.
pub proof fn lemma_coherence(entries: Entries, capacity: int, id: i32, history: Seq<CacheOp>)
    requires
        capacity > 0,
        entries.len() <= capacity,
        last_put(history) is Some,
    ensures
        lookup(after_history(entries, capacity, id, history), id) == last_put(history),
        after_history(entries, capacity, id, history).len() <= capacity,
    decreases history.len(),
{
    lemma_history_bounded(entries, capacity, id, history.drop_last());
    let before = after_history(entries, capacity, id, history.drop_last());
    match history.last() {
        CacheOp::Put(snapshot) => {
            lemma_inserted(before, id, snapshot, capacity);
        },
        CacheOp::Get => {
            lemma_coherence(entries, capacity, id, history.drop_last());
            lemma_touched(before, id);
        },
    }
}

/// A history of puts and gets keeps a cache within its capacity.
pub proof fn lemma_history_bounded(entries: Entries, capacity: int, id: i32, history: Seq<CacheOp>)
    requires
        entries.len() <= capacity,
    ensures
        after_history(entries, capacity, id, history).len() <= capacity,
    decreases history.len(),
{
    if history.len() > 0 {
        lemma_history_bounded(entries, capacity, id, history.drop_last());
        let before = after_history(entries, capacity, id, history.drop_last());
        match history.last() {
            CacheOp::Put(snapshot) => {
                lemma_inserted(before, id, snapshot, capacity);
            },
            CacheOp::Get => {
                lemma_touched(before, id);
            },
        }
    }
}

/// A cache of entity snapshots, bounded in size.
pub struct Cache {
    entries: LruCache<i32, Entity>,
}

impl View for Cache {
    type V = Seq<(i32, EntityView)>;

    /// The entries, from the least recently used to the most recently used.
    closed spec fn view(&self) -> Seq<(i32, EntityView)> {
        lru_entries(self.entries)
    }
}

impl Cache {
    /// The number of entries that the cache holds at most.
    pub closed spec fn capacity(&self) -> usize {
        lru_capacity(self.entries)
    }

    /// The cache never holds more than its capacity, nor two entries under one id.
    #[verifier::type_invariant]
    closed spec fn within_bounds(&self) -> bool {
        &&& lru_entries(self.entries).len() <= lru_capacity(self.entries)
        &&& distinct_ids(lru_entries(self.entries))
    }

    /// An empty cache that holds at most `capacity` entries.
    pub fn new(capacity: usize) -> (cache: Cache)
        ensures
            cache@ == no_entries(),
            cache.capacity() == capacity,
    {
        Cache { entries: lru_new(capacity) }
    }

    /// The snapshot filed under `id`, if there is one. A hit makes the entry the most
    /// recently used; a miss changes nothing, and it is for the caller to read the
    /// entity store and to hand its answer to `read_through`.
    pub fn get(&mut self, id: i32) -> (found: Option<Entity>)
        ensures
            option_view(found) == lookup(old(self)@, id),
            final(self)@ == touched(old(self)@, id),
            final(self).capacity() == old(self).capacity(),
            final(self)@.len() <= final(self).capacity(),
            distinct_ids(final(self)@),
    {
        proof {
            use_type_invariant(&*self);
            lemma_touched(self@, id);
            assert forall|snapshot: EntityView| lookup(self@, id) is Some implies #[trigger] without(
                self@,
                id,
            ).push((id, snapshot)).len() == self@.len() && distinct_ids(
                without(self@, id).push((id, snapshot)),
            ) by {
                lemma_moved_to_back(self@, id, snapshot);
            }
        }
        match lru_get_mut(&mut self.entries, id) {
            Some(entity) => Some(entity.clone()),
            None => None,
        }
    }

    /// Files `snapshot` under `id`, whatever was filed there before.
    pub fn put(&mut self, id: i32, snapshot: Entity)
        ensures
            final(self)@ == inserted(old(self)@, id, snapshot@, old(self).capacity() as int),
            final(self).capacity() == old(self).capacity(),
            final(self)@.len() <= final(self).capacity(),
            distinct_ids(final(self)@),
    {
        proof {
            use_type_invariant(&*self);
            lemma_inserted(self@, id, snapshot@, self.capacity() as int);
        }
        let _ = lru_insert(&mut self.entries, id, snapshot);
    }

    /// Removes the entry filed under `id`. Where there is none, nothing changes.
    pub fn invalidate(&mut self, id: i32)
        ensures
            final(self)@ == without(old(self)@, id),
            lookup(old(self)@, id) is None ==> final(self)@ == old(self)@,
            lookup(final(self)@, id) is None,
            final(self).capacity() == old(self).capacity(),
            final(self)@.len() <= final(self).capacity(),
            distinct_ids(final(self)@),
    {
        proof {
            use_type_invariant(&*self);
            lemma_without(self@, id);
        }
        let _ = lru_remove(&mut self.entries, id);
    }

    /// Completes a miss on `id` with the answer of the entity store: a row is filed and
    /// handed on, an error is handed on unchanged and leaves the cache as it is.
    pub fn read_through(&mut self, id: i32, stored: Result<Entity, StoreError>) -> (answer: Result<
        Entity,
        StoreError,
    >)
        ensures
            stored matches Ok(row) ==> answer matches Ok(entity) && entity@ == row@ && final(self)@
                == inserted(old(self)@, id, row@, old(self).capacity() as int),
            stored matches Err(error) ==> answer matches Err(same) && same == error && final(self)@
                == old(self)@,
            final(self).capacity() == old(self).capacity(),
            final(self)@.len() <= final(self).capacity(),
            distinct_ids(final(self)@),
    {
        proof {
            use_type_invariant(&*self);
        }
        match stored {
            Ok(row) => {
                self.put(id, row.clone());
                Ok(row)
            },
            Err(error) => Err(error),
        }
    }
}

} // verus!
