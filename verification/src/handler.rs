//! The decisions of the fusion request flow, free of any I/O: the cache
//! lookup that starts each of the two branches, and the final choice
//! between a real fusion and the fixed fallback entity.
//!
//! The surrounding service runs the flow per branch: `cached_entity`; on a
//! miss it fetches, and on fetch success stores the result with
//! [`EntityCache::put`] before use. On fetch failure nothing is stored and
//! the branch resolves to absent.

use vstd::prelude::*;
use crate::cache::EntityCache;
use crate::entity::{missing_no, missing_no_model, EntityModel, Pokemon};
use crate::fusion::{fuse_model, fuse_pokemon};

verus! {

/// The model of the fusion response: the fusion of the two resolved
/// entities when both are present, the fallback entity otherwise.
pub open spec fn fuse_response_model(
    p1: Option<EntityModel>,
    p2: Option<EntityModel>,
) -> EntityModel {
    match (p1, p2) {
        (Some(a), Some(b)) => fuse_model(a, b),
        _ => missing_no_model(),
    }
}

/// The cache-check step of one lookup branch: a copy of the cached entity
/// for `id`, or absent on a miss (and only then).
pub fn cached_entity(cache: &EntityCache, id: u16) -> (r: Option<Pokemon>)
    ensures
        match r {
            Some(p) => cache@.contains_key(id) && p.model() == cache@[id].model(),
            None => !cache@.contains_key(id),
        },
{
    match cache.get(id) {
        Some(p) => Some(p.duplicate()),
        None => None,
    }
}

/// The miss branch of one lookup: given what the fetch for `id` produced,
/// store the entity before use on success, and store nothing on failure.
/// The branch resolves to a copy of the stored entity, or to absent
/// exactly when the fetch failed.
pub fn resolve_fetched(cache: &mut EntityCache, id: u16, fetched: Option<Pokemon>) -> (r:
    Option<Pokemon>)
    ensures
        match fetched {
            Some(p) => {
                &&& final(cache)@ == old(cache)@.insert(id, p)
                &&& r is Some
                &&& r->0.model() == p.model()
            },
            None => {
                &&& final(cache)@ == old(cache)@
                &&& r is None
            },
        },
{
    match fetched {
        Some(p) => {
            let copy = p.duplicate();
            cache.put(id, p);
            Some(copy)
        },
        None => None,
    }
}

/// The final step of the fusion flow: fuse the two resolved entities, or
/// return the fallback entity if either branch resolved to absent.
pub fn fuse_response(p1: Option<Pokemon>, p2: Option<Pokemon>) -> (r: Pokemon)
    ensures
        r.model() == fuse_response_model(
            match p1 {
                Some(a) => Some(a.model()),
                None => None::<EntityModel>,
            },
            match p2 {
                Some(b) => Some(b.model()),
                None => None::<EntityModel>,
            },
        ),
{
    match (p1, p2) {
        (Some(a), Some(b)) => fuse_pokemon(&a, &b),
        _ => missing_no(),
    }
}

/// The plain-text banner served at the root path.
pub fn banner() -> (r: &'static str)
    ensures
        r@ == "Welcome to the pokemon fusion API!"@,
{
    "Welcome to the pokemon fusion API!"
}

} // verus!
