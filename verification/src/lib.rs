//! A small creature-fusion library: a client mapping from a remote JSON API's
//! shape into a plain entity record, a read-through in-memory cache keyed by
//! numeric id, and a pure fusion function combining two entities' names,
//! stats and types.

pub mod assets;
pub mod cache;
pub mod client;
pub mod decimal;
pub mod entity;
pub mod fusion;
pub mod handler;
