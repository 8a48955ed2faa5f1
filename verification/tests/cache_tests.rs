use pokefusion::cache::EntityCache;
use pokefusion::entity::{Pokemon, Stats};
use pokefusion::handler::{cached_entity, resolve_fetched};

fn entity(name: &str, hp: u16) -> Pokemon {
    Pokemon {
        name: name.to_string(),
        stats: Stats {
            hp,
            attack: 2,
            defense: 3,
            special_attack: 4,
            special_defense: 5,
            speed: 6,
        },
        types: ("grass".to_string(), "poison".to_string()),
    }
}

#[test]
fn put_then_get_returns_stored_entity() {
    let mut cache = EntityCache::new();
    cache.put(1, entity("bulbasaur", 45));
    let got = cache.get(1).expect("entry stored for id 1");
    assert_eq!(got.name, "bulbasaur");
    assert_eq!(got.stats.hp, 45);
    assert_eq!(got.types.0, "grass");
    assert_eq!(got.types.1, "poison");
}

#[test]
fn get_of_missing_id_is_absent() {
    let cache = EntityCache::new();
    assert!(cache.get(7).is_none());
    assert!(cached_entity(&cache, 7).is_none());
}

#[test]
fn entries_are_independent() {
    let mut cache = EntityCache::new();
    cache.put(1, entity("bulbasaur", 45));
    cache.put(4, entity("charmander", 39));
    assert_eq!(cache.get(1).unwrap().name, "bulbasaur");
    assert_eq!(cache.get(4).unwrap().name, "charmander");
    assert!(cache.get(2).is_none());
    assert_eq!(cache.len(), 2);
}

#[test]
fn overwrite_replaces_entry() {
    let mut cache = EntityCache::new();
    cache.put(1, entity("bulbasaur", 45));
    cache.put(1, entity("bulbasaur", 45));
    assert_eq!(cache.len(), 1);
    assert_eq!(cache.get(1).unwrap().stats.hp, 45);
}

#[test]
fn fetch_success_is_stored_before_use() {
    let mut cache = EntityCache::new();
    let resolved = resolve_fetched(&mut cache, 1, Some(entity("bulbasaur", 45)));
    assert_eq!(resolved.unwrap().name, "bulbasaur");
    // Coherence after a store: the next read returns the fetched entity.
    let got = cache.get(1).expect("stored on fetch success");
    assert_eq!(got.name, "bulbasaur");
    assert_eq!(got.stats.hp, 45);
}

#[test]
fn fetch_failure_stores_nothing() {
    let mut cache = EntityCache::new();
    let resolved = resolve_fetched(&mut cache, 2, None);
    assert!(resolved.is_none());
    assert!(cache.get(2).is_none());
    assert_eq!(cache.len(), 0);
}

#[test]
fn cached_entity_copies_the_entry() {
    let mut cache = EntityCache::new();
    cache.put(25, entity("pikachu", 35));
    let copy = cached_entity(&cache, 25).expect("entry stored for id 25");
    assert_eq!(copy.name, "pikachu");
    assert_eq!(copy.stats.hp, 35);
    // The entry itself is still there, unchanged.
    assert_eq!(cache.get(25).unwrap().name, "pikachu");
}
