use pokefusion::entity::{Pokemon, Stats};
use pokefusion::fusion::fuse_pokemon;

fn entity(name: &str, stats: [u16; 6], t0: &str, t1: &str) -> Pokemon {
    Pokemon {
        name: name.to_string(),
        stats: Stats {
            hp: stats[0],
            attack: stats[1],
            defense: stats[2],
            special_attack: stats[3],
            special_defense: stats[4],
            speed: stats[5],
        },
        types: (t0.to_string(), t1.to_string()),
    }
}

#[test]
fn name_splitting() {
    let a = entity("bulbasaur", [1, 1, 1, 1, 1, 1], "grass", "poison");
    let b = entity("charmander", [1, 1, 1, 1, 1, 1], "fire", "none");
    let fused = fuse_pokemon(&a, &b);
    assert_eq!(fused.name, "bulbander");
}

#[test]
fn name_splitting_empty_names() {
    let a = entity("", [1, 1, 1, 1, 1, 1], "grass", "none");
    let b = entity("", [1, 1, 1, 1, 1, 1], "fire", "none");
    let fused = fuse_pokemon(&a, &b);
    assert_eq!(fused.name, "");
}

#[test]
fn name_splitting_one_side_empty() {
    let a = entity("mew", [1, 1, 1, 1, 1, 1], "psychic", "none");
    let b = entity("", [1, 1, 1, 1, 1, 1], "fire", "none");
    let fused = fuse_pokemon(&a, &b);
    assert_eq!(fused.name, "m");
}

#[test]
fn name_splitting_multibyte() {
    // Split on character count, never inside a multi-byte encoding.
    let a = entity("flabébé", [1, 1, 1, 1, 1, 1], "fairy", "none");
    let b = entity("flabébé", [1, 1, 1, 1, 1, 1], "fairy", "none");
    let fused = fuse_pokemon(&a, &b);
    // 7 chars: first half is 3 chars "fla", second half starts at index 3: "bébé".
    assert_eq!(fused.name, "flabébé");
}

#[test]
fn stat_averaging() {
    let a = entity("a", [0, 10, 0, 0, 0, 0], "x", "none");
    let b = entity("b", [0, 100, 0, 0, 0, 0], "y", "none");
    let fused = fuse_pokemon(&a, &b);
    assert_eq!(fused.stats.attack, 40);
}

#[test]
fn stat_averaging_truncates() {
    let a = entity("a", [7, 0, 0, 0, 0, 0], "x", "none");
    let b = entity("b", [9, 0, 0, 0, 0, 0], "y", "none");
    let fused = fuse_pokemon(&a, &b);
    // floor((7*2 + 9) / 3) = floor(23 / 3) = 7
    assert_eq!(fused.stats.hp, 7);
}

#[test]
fn stat_averaging_max_domain() {
    let a = entity("a", [65535; 6], "x", "none");
    let b = entity("b", [65535; 6], "y", "none");
    let fused = fuse_pokemon(&a, &b);
    assert_eq!(fused.stats.hp, 65535);
    assert_eq!(fused.stats.speed, 65535);
}

#[test]
fn speed_mixes_first_attack() {
    let a = entity("a", [0, 10, 0, 0, 0, 77], "x", "none");
    let b = entity("b", [0, 0, 0, 0, 0, 100], "y", "none");
    let fused = fuse_pokemon(&a, &b);
    // (a.attack * 2 + b.speed) / 3, not (a.speed * 2 + b.speed) / 3.
    assert_eq!(fused.stats.speed, 40);
}

#[test]
fn all_stats_positional() {
    let a = entity("a", [10, 20, 30, 40, 50, 60], "x", "none");
    let b = entity("b", [100, 110, 120, 130, 140, 150], "y", "none");
    let fused = fuse_pokemon(&a, &b);
    assert_eq!(fused.stats.hp, (10 * 2 + 100) / 3);
    assert_eq!(fused.stats.attack, (20 * 2 + 110) / 3);
    assert_eq!(fused.stats.defense, (30 * 2 + 120) / 3);
    assert_eq!(fused.stats.special_attack, (40 * 2 + 130) / 3);
    assert_eq!(fused.stats.special_defense, (50 * 2 + 140) / 3);
    assert_eq!(fused.stats.speed, (20 * 2 + 150) / 3);
}

#[test]
fn type_fallback() {
    let a = entity("a", [1; 6], "water", "none");
    let b = entity("b", [1; 6], "grass", "none");
    let fused = fuse_pokemon(&a, &b);
    assert_eq!(fused.types.0, "water");
    assert_eq!(fused.types.1, "grass");

    let b2 = entity("b", [1; 6], "grass", "poison");
    let fused2 = fuse_pokemon(&a, &b2);
    assert_eq!(fused2.types.1, "poison");
}

#[test]
fn fuse_is_deterministic() {
    let a = entity("bulbasaur", [45, 49, 49, 65, 65, 45], "grass", "poison");
    let b = entity("charmander", [39, 52, 43, 60, 50, 65], "fire", "none");
    let one = fuse_pokemon(&a, &b);
    let two = fuse_pokemon(&a, &b);
    assert_eq!(one.name, two.name);
    assert_eq!(one.stats, two.stats);
    assert_eq!(one.types, two.types);
    // The arguments themselves are untouched.
    assert_eq!(a.name, "bulbasaur");
    assert_eq!(b.types.1, "none");
}
