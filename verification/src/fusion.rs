//! The fusion engine: a pure, deterministic combination of two entities.
//!
//! The fused name is the first half of `a`'s name (on character count,
//! rounding down) followed by the second half of `b`'s name. Each fused stat
//! is `floor((a_stat * 2 + b_stat) / 3)`; the fused `speed` deliberately
//! mixes `a`'s *attack* with `b`'s speed, reproducing the behaviour of the
//! service this library backs. The first fused type is `a`'s first type; the
//! second is `b`'s second type unless that is the sentinel `"none"`, in
//! which case `b`'s first type is used instead.

use vstd::prelude::*;
use crate::entity::{EntityModel, Pokemon, Stats};

verus! {

/// `floor((x * 2 + y) / 3)`; for 16-bit inputs the result fits in 16 bits.
pub open spec fn fused_stat_model(x: u16, y: u16) -> u16 {
    (((x as int) * 2 + (y as int)) / 3) as u16
}

/// First half of `a` (exclusive of the floor midpoint) followed by the
/// second half of `b` (from `b`'s floor midpoint to its end).
pub open spec fn fused_name_model(a: Seq<char>, b: Seq<char>) -> Seq<char> {
    a.subrange(0, a.len() as int / 2) + b.subrange(b.len() as int / 2, b.len() as int)
}

/// `b`'s second type, falling back to `b`'s first type on the sentinel.
pub open spec fn fused_second_type_model(b0: Seq<char>, b1: Seq<char>) -> Seq<char> {
    if b1 == "none"@ {
        b0
    } else {
        b1
    }
}

/// The model of the entity that fusing `a` with `b` produces.
pub open spec fn fuse_model(a: EntityModel, b: EntityModel) -> EntityModel {
    EntityModel {
        name: fused_name_model(a.name, b.name),
        stats: Stats {
            hp: fused_stat_model(a.stats.hp, b.stats.hp),
            attack: fused_stat_model(a.stats.attack, b.stats.attack),
            defense: fused_stat_model(a.stats.defense, b.stats.defense),
            special_attack: fused_stat_model(a.stats.special_attack, b.stats.special_attack),
            special_defense: fused_stat_model(a.stats.special_defense, b.stats.special_defense),
            speed: fused_stat_model(a.stats.attack, b.stats.speed),
        },
        type0: a.type0,
        type1: fused_second_type_model(b.type0, b.type1),
    }
}

/// `floor((x * 2 + y) / 3)`, computed in 32 bits so that no intermediate
/// value overflows; the quotient itself always fits back in 16 bits.
fn fused_stat(x: u16, y: u16) -> (r: u16)
    ensures
        r == fused_stat_model(x, y),
{
    let wide: u32 = (x as u32) * 2 + (y as u32);
    let q: u32 = wide / 3;
    q as u16
}

/// Fuse two entities. Pure and total: the result is a function of the two
/// argument models alone, and neither argument is mutated (both are taken
/// by shared borrow).
pub fn fuse_pokemon(pokemon1: &Pokemon, pokemon2: &Pokemon) -> (r: Pokemon)
    ensures
        r.model() == fuse_model(pokemon1.model(), pokemon2.model()),
{
    let a_len: usize = pokemon1.name.as_str().unicode_len();
    let b_len: usize = pokemon2.name.as_str().unicode_len();
    let first_half = pokemon1.name.as_str().substring_char(0, a_len / 2);
    let second_half = pokemon2.name.as_str().substring_char(b_len / 2, b_len);
    let mut name: String = first_half.to_owned();
    name.append(second_half);

    let sentinel: String = String::from_str("none");
    let second_type: String = if pokemon2.types.1 == sentinel {
        pokemon2.types.0.clone()
    } else {
        pokemon2.types.1.clone()
    };

    let r = Pokemon {
        name,
        stats: Stats {
            hp: fused_stat(pokemon1.stats.hp, pokemon2.stats.hp),
            attack: fused_stat(pokemon1.stats.attack, pokemon2.stats.attack),
            defense: fused_stat(pokemon1.stats.defense, pokemon2.stats.defense),
            special_attack: fused_stat(pokemon1.stats.special_attack, pokemon2.stats.special_attack),
            special_defense: fused_stat(
                pokemon1.stats.special_defense,
                pokemon2.stats.special_defense,
            ),
            speed: fused_stat(pokemon1.stats.attack, pokemon2.stats.speed),
        },
        types: (pokemon1.types.0.clone(), second_type),
    };
    proof {
        assert(r.model() =~= fuse_model(pokemon1.model(), pokemon2.model()));
    }
    r
}

/// Fusion is deterministic and free of hidden state: it depends only on the
/// models of its two arguments, so two calls on interchangeable inputs
/// produce interchangeable outputs.
pub proof fn lemma_fuse_deterministic(a1: Pokemon, b1: Pokemon, a2: Pokemon, b2: Pokemon)
    requires
        a1.model() == a2.model(),
        b1.model() == b2.model(),
    ensures
        fuse_model(a1.model(), b1.model()) == fuse_model(a2.model(), b2.model()),
{
}

} // verus!
