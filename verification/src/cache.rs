//! A process-lifetime, read-through entity cache keyed by numeric id.
//! Entries are only ever inserted after a successful fetch, never evicted;
//! an overwrite can only replace an entry with an equivalent value, since
//! the upstream response for a given id is stable.

use vstd::prelude::*;
use std::collections::HashMap;
use crate::entity::Pokemon;

verus! {

broadcast use vstd::std_specs::hash::group_hash_axioms;

/// The cache: a map from id to the entity fetched for that id.
pub struct EntityCache {
    map: HashMap<u16, Pokemon>,
}

impl View for EntityCache {
    type V = Map<u16, Pokemon>;

    closed spec fn view(&self) -> Map<u16, Pokemon> {
        self.map@
    }
}

impl EntityCache {
    /// An empty cache.
    pub fn new() -> (r: EntityCache)
        ensures
            r@ == Map::<u16, Pokemon>::empty(),
    {
        EntityCache { map: HashMap::new() }
    }

    /// The read path: the entity stored for `id`, or absent.
    pub fn get(&self, id: u16) -> (r: Option<&Pokemon>)
        ensures
            match r {
                Some(p) => self@.contains_key(id) && *p == self@[id],
                None => !self@.contains_key(id),
            },
    {
        self.map.get(&id)
    }

    /// The write path: store the entity fetched for `id`. Called only after
    /// a successful fetch; inserting twice for one id replaces the entry.
    pub fn put(&mut self, id: u16, entity: Pokemon)
        ensures
            final(self)@ == old(self)@.insert(id, entity),
    {
        self.map.insert(id, entity);
    }

    /// How many ids have been cached.
    pub fn len(&self) -> (n: usize)
        ensures
            n == self@.dom().len(),
    {
        self.map.len()
    }
}

/// Cache coherence after a store: a fetch for `id` followed by `put` leaves
/// a cache in which `get(id)` yields exactly the fetched entity, whatever
/// the cache held before.
pub proof fn lemma_cache_coherence(m: Map<u16, Pokemon>, id: u16, entity: Pokemon)
    ensures
        m.insert(id, entity).contains_key(id),
        m.insert(id, entity)[id] == entity,
{
}

} // verus!
