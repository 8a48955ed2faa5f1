//! The client mapping: from the remote API's response body to an entity.
//!
//! The remote document holds (at least) a string field `name`, an ordered
//! array `stats` of objects with a numeric `base_stat`, and an ordered
//! array `types` of objects with a `type.name` string. Any missing or
//! mistyped field is defaulted (empty string, zero) rather than failing the
//! whole mapping; only an unparseable body yields no entity at all.
//!
//! What `serde_json` parses and extracts from a body is a deterministic
//! function of the body text alone, so each extracted field is given a
//! name (an uninterpreted spec function over the body), tied to its
//! trusted extraction call. Everything from the extracted plain values
//! ([`ApiData`]) to the finished entity is verified against an exact
//! contract, and the whole mapping's result is pinned to the named fields.

use vstd::prelude::*;
use crate::entity::{EntityModel, Pokemon, Stats};

verus! {

/// Whether `serde_json` accepts the body as a JSON document (valid JSON
/// within its recursion-depth limit).
pub uninterp spec fn json_parses(body: Seq<char>) -> bool;

/// The document's `name` field, where it is a string.
pub uninterp spec fn json_name_field(body: Seq<char>) -> Option<Seq<char>>;

/// The document's `stats[i].base_stat`, where it is an unsigned integer.
pub uninterp spec fn json_base_stat(body: Seq<char>, i: int) -> Option<u64>;

/// How many entries the document's `types` array holds; 0 where it is
/// absent or not an array.
pub uninterp spec fn json_type_count(body: Seq<char>) -> int;

/// The document's `types[i].type.name`, where it is a string.
pub uninterp spec fn json_type_name(body: Seq<char>, i: int) -> Option<Seq<char>>;

/// An optional string's text.
pub open spec fn opt_text(o: Option<String>) -> Option<Seq<char>> {
    match o {
        Some(s) => Some(s@),
        None => None,
    }
}

/// Relies on `serde_json::from_str::<Value>`: acceptance of a body is a
/// function of the body text alone. Malformed input (and a valid document
/// nested beyond the recursion limit) is rejected, without panicking.
#[verifier::external_body]
fn body_parses(body: &str) -> (r: bool)
    ensures
        r == json_parses(body@),
{
    serde_json::from_str::<serde_json::Value>(body).is_ok()
}

/// Relies on `serde_json::from_str` and `Value::get` / `Value::as_str`:
/// the `name` field of the parsed document, a function of the body alone;
/// absent on an unparseable body.
#[verifier::external_body]
fn extract_name(body: &str) -> (r: Option<String>)
    ensures
        opt_text(r) == json_name_field(body@),
{
    let v: serde_json::Value = match serde_json::from_str(body) {
        Ok(v) => v,
        Err(_) => return None,
    };
    match v.get("name").and_then(|n| n.as_str()) {
        Some(s) => Some(s.to_string()),
        None => None,
    }
}

/// Relies on `serde_json::from_str` and `Value::get` / `Value::as_u64`:
/// `stats[i].base_stat` of the parsed document, a function of the body
/// and the position alone; absent on an unparseable body.
#[verifier::external_body]
fn extract_base_stat(body: &str, i: usize) -> (r: Option<u64>)
    ensures
        r == json_base_stat(body@, i as int),
{
    let v: serde_json::Value = match serde_json::from_str(body) {
        Ok(v) => v,
        Err(_) => return None,
    };
    v.get("stats")
        .and_then(|s| s.get(i))
        .and_then(|e| e.get("base_stat"))
        .and_then(|b| b.as_u64())
}

/// Relies on `serde_json::from_str` and `Value::get` / `Value::as_array`:
/// the element count of the parsed document's `types` array, a function of
/// the body alone; 0 where the body is unparseable, the field absent, or
/// not an array.
#[verifier::external_body]
fn extract_type_count(body: &str) -> (r: usize)
    ensures
        r as int == json_type_count(body@),
{
    let v: serde_json::Value = match serde_json::from_str(body) {
        Ok(v) => v,
        Err(_) => return 0,
    };
    match v.get("types").and_then(|t| t.as_array()) {
        Some(a) => a.len(),
        None => 0,
    }
}

/// Relies on `serde_json::from_str` and `Value::get` / `Value::as_str`:
/// `types[i].type.name` of the parsed document, a function of the body
/// and the position alone; absent on an unparseable body.
#[verifier::external_body]
fn extract_type_name(body: &str, i: usize) -> (r: Option<String>)
    ensures
        opt_text(r) == json_type_name(body@, i as int),
{
    let v: serde_json::Value = match serde_json::from_str(body) {
        Ok(v) => v,
        Err(_) => return None,
    };
    match v
        .get("types")
        .and_then(|t| t.get(i))
        .and_then(|e| e.get("type"))
        .and_then(|t| t.get("name"))
        .and_then(|n| n.as_str())
    {
        Some(s) => Some(s.to_string()),
        None => None,
    }
}

/// The plain values the mapping reads out of one response body: each is
/// `None` where the corresponding field is missing or has the wrong type.
pub struct ApiData {
    /// The `name` field.
    pub name: Option<String>,
    /// `stats[i].base_stat` for each position `i` that was read.
    pub base_stats: Vec<Option<u64>>,
    /// How many entries the `types` array holds; 0 when it is absent.
    pub type_count: usize,
    /// `types[0].type.name`.
    pub first_type: Option<String>,
    /// `types[1].type.name`.
    pub second_type: Option<String>,
}

/// A missing name maps to the empty string.
pub open spec fn mapped_name(name: Option<String>) -> Seq<char> {
    match name {
        Some(s) => s@,
        None => Seq::<char>::empty(),
    }
}

/// The stat at position `i`: the recorded value reduced to the unsigned
/// 16-bit domain, or 0 where the position is missing or was not a number.
pub open spec fn mapped_stat(stats: Seq<Option<u64>>, i: int) -> u16 {
    if 0 <= i < stats.len() && stats[i] is Some {
        (stats[i]->0 % 0x10000) as u16
    } else {
        0
    }
}

/// The first type label; empty where missing.
pub open spec fn mapped_first_type(d: ApiData) -> Seq<char> {
    match d.first_type {
        Some(s) => s@,
        None => Seq::<char>::empty(),
    }
}

/// The second type label: the sentinel `"none"` when the document holds
/// exactly one type entry, otherwise the second entry's name (empty where
/// missing).
pub open spec fn mapped_second_type(d: ApiData) -> Seq<char> {
    if d.type_count == 1 {
        "none"@
    } else {
        match d.second_type {
            Some(s) => s@,
            None => Seq::<char>::empty(),
        }
    }
}

/// The entity that one extracted record maps to.
pub open spec fn api_entity_model(d: ApiData) -> EntityModel {
    EntityModel {
        name: mapped_name(d.name),
        stats: Stats {
            hp: mapped_stat(d.base_stats@, 0),
            attack: mapped_stat(d.base_stats@, 1),
            defense: mapped_stat(d.base_stats@, 2),
            special_attack: mapped_stat(d.base_stats@, 3),
            special_defense: mapped_stat(d.base_stats@, 4),
            speed: mapped_stat(d.base_stats@, 5),
        },
        type0: mapped_first_type(d),
        type1: mapped_second_type(d),
    }
}

/// An optional field's text, defaulted to empty.
pub open spec fn text_or_empty(o: Option<Seq<char>>) -> Seq<char> {
    match o {
        Some(s) => s,
        None => Seq::<char>::empty(),
    }
}

/// The stat the body yields at position `i`, reduced to 16 bits.
pub open spec fn json_stat(body: Seq<char>, i: int) -> u16 {
    match json_base_stat(body, i) {
        Some(v) => (v % 0x10000) as u16,
        None => 0,
    }
}

/// The entity one response body maps to, over the named extraction
/// results: defaulted name and types, the first six stats positionally,
/// and the `"none"` sentinel for a single-typed creature.
pub open spec fn json_entity_model(body: Seq<char>) -> EntityModel {
    EntityModel {
        name: text_or_empty(json_name_field(body)),
        stats: Stats {
            hp: json_stat(body, 0),
            attack: json_stat(body, 1),
            defense: json_stat(body, 2),
            special_attack: json_stat(body, 3),
            special_defense: json_stat(body, 4),
            speed: json_stat(body, 5),
        },
        type0: text_or_empty(json_type_name(body, 0)),
        type1: if json_type_count(body) == 1 {
            "none"@
        } else {
            text_or_empty(json_type_name(body, 1))
        },
    }
}

/// One stat, defaulted and reduced to 16 bits.
fn stat_at(stats: &Vec<Option<u64>>, i: usize) -> (r: u16)
    ensures
        r == mapped_stat(stats@, i as int),
{
    if i < stats.len() {
        match stats[i] {
            Some(v) => (v % 0x10000) as u16,
            None => 0u16,
        }
    } else {
        0u16
    }
}

/// A string field's content, defaulted to empty.
fn string_or_empty(field: &Option<String>) -> (r: String)
    ensures
        r@ == mapped_name(*field),
{
    match field {
        Some(s) => s.clone(),
        None => String::new(),
    }
}

/// Map one body's extracted plain values to an entity, positionally for
/// the six stats and with the `"none"` sentinel for a single-typed
/// creature. Total: every malformed field has already become `None` and is
/// defaulted here.
pub fn pokemon_api_to_struct(data: &ApiData) -> (r: Pokemon)
    ensures
        r.model() == api_entity_model(*data),
{
    let second_type: String = if data.type_count == 1 {
        String::from_str("none")
    } else {
        string_or_empty(&data.second_type)
    };
    let r = Pokemon {
        name: string_or_empty(&data.name),
        stats: Stats {
            hp: stat_at(&data.base_stats, 0),
            attack: stat_at(&data.base_stats, 1),
            defense: stat_at(&data.base_stats, 2),
            special_attack: stat_at(&data.base_stats, 3),
            special_defense: stat_at(&data.base_stats, 4),
            speed: stat_at(&data.base_stats, 5),
        },
        types: (string_or_empty(&data.first_type), second_type),
    };
    proof {
        assert(r.model() =~= api_entity_model(*data));
    }
    r
}

/// Extract the plain values the mapping reads from one response body: the
/// name, the first six stat entries, and the type entries with their
/// count, each pinned to its named extraction result.
pub fn extracted_api_data(body: &str) -> (r: ApiData)
    ensures
        opt_text(r.name) == json_name_field(body@),
        r.base_stats@.len() == 6,
        forall|i: int| 0 <= i < 6 ==> r.base_stats@[i] == json_base_stat(body@, i),
        r.type_count as int == json_type_count(body@),
        opt_text(r.first_type) == json_type_name(body@, 0),
        opt_text(r.second_type) == json_type_name(body@, 1),
{
    let mut base_stats: Vec<Option<u64>> = Vec::new();
    let mut i: usize = 0;
    while i < 6
        invariant
            i <= 6,
            base_stats@.len() == i,
            forall|j: int| 0 <= j < i ==> base_stats@[j] == json_base_stat(body@, j),
        decreases 6 - i,
    {
        base_stats.push(extract_base_stat(body, i));
        i = i + 1;
    }
    ApiData {
        name: extract_name(body),
        base_stats,
        type_count: extract_type_count(body),
        first_type: extract_type_name(body, 0),
        second_type: extract_type_name(body, 1),
    }
}

/// The whole client mapping on one response body: an entity exactly when
/// `serde_json` accepts the body, mapped from the document's named fields;
/// nothing at all on an unparseable body. The mapping is total, so no
/// partial entity can come out of a parseable document.
pub fn pokemon_from_json(body: &str) -> (r: Option<Pokemon>)
    ensures
        r is Some <==> json_parses(body@),
        r matches Some(p) ==> p.model() == json_entity_model(body@),
{
    if body_parses(body) {
        let data = extracted_api_data(body);
        let p = pokemon_api_to_struct(&data);
        proof {
            assert(p.model() =~= json_entity_model(body@));
        }
        Some(p)
    } else {
        None
    }
}

} // verus!
