//! Core logic of a small Pokedex: resolving a free-text query to a canonical
//! species slug and assembling a display-ready record from fetched resources.
//!
//! Network fetches themselves are performed by the host application; this
//! library decides what to fetch, interprets the results, and guarantees the
//! shape of the assembled record.

pub mod assemble;
pub mod distance;
pub mod pokedex;
pub mod pokemon;
pub mod resolve;
pub mod text;
