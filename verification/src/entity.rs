//! The core entity record: a creature's name, six base stats, and a pair of
//! type labels. The second label may be the sentinel `"none"` when the
//! creature has a single type.

use vstd::prelude::*;

verus! {

/// The six base stats, each in the unsigned 16-bit domain.
#[derive(Clone, Copy, PartialEq, Eq, Structural, Debug)]
pub struct Stats {
    pub hp: u16,
    pub attack: u16,
    pub defense: u16,
    pub special_attack: u16,
    pub special_defense: u16,
    pub speed: u16,
}

/// A creature: name, stats, and an ordered pair of type labels.
pub struct Pokemon {
    pub name: String,
    pub stats: Stats,
    pub types: (String, String),
}

/// The mathematical content of a `Pokemon`: its name and type labels as
/// character sequences, and its stats. Two entities with equal models are
/// interchangeable everywhere in this library.
#[verifier::ext_equal]
pub struct EntityModel {
    pub name: Seq<char>,
    pub stats: Stats,
    pub type0: Seq<char>,
    pub type1: Seq<char>,
}

impl Pokemon {
    /// The abstraction of this entity.
    pub open spec fn model(self) -> EntityModel {
        EntityModel {
            name: self.name@,
            stats: self.stats,
            type0: self.types.0@,
            type1: self.types.1@,
        }
    }

    /// An explicit copy whose model equals this entity's model.
    pub fn duplicate(&self) -> (r: Pokemon)
        ensures
            r.model() == self.model(),
    {
        let r = Pokemon {
            name: self.name.clone(),
            stats: self.stats,
            types: (self.types.0.clone(), self.types.1.clone()),
        };
        proof {
            assert(r.model() =~= self.model());
        }
        r
    }
}

/// The model of the fixed fallback entity returned when a lookup fails:
/// name `"MISSING NO"`, every stat 1, both types the sentinel `"none"`.
pub open spec fn missing_no_model() -> EntityModel {
    EntityModel {
        name: "MISSING NO"@,
        stats: Stats {
            hp: 1,
            attack: 1,
            defense: 1,
            special_attack: 1,
            special_defense: 1,
            speed: 1,
        },
        type0: "none"@,
        type1: "none"@,
    }
}

/// The fixed fallback entity.
pub fn missing_no() -> (r: Pokemon)
    ensures
        r.model() == missing_no_model(),
{
    let r = Pokemon {
        name: String::from_str("MISSING NO"),
        stats: Stats {
            hp: 1,
            attack: 1,
            defense: 1,
            special_attack: 1,
            special_defense: 1,
            speed: 1,
        },
        types: (String::from_str("none"), String::from_str("none")),
    };
    proof {
        assert(r.model() =~= missing_no_model());
    }
    r
}

} // verus!
