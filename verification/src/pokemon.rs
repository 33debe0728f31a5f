//! The fetched species resources, held as plain values: the catalog entry,
//! the species record with its flavor texts, and one named base stat.

use vstd::prelude::*;

verus! {

/// One entry of the bulk species catalog: a species name.
#[derive(Debug, Clone)]
pub struct Entry {
    pub name: String,
}

/// One flavor-text entry of a species record, tagged with its language.
#[derive(Debug, Clone)]
pub struct FlavorText {
    pub flavor_text: String,
    pub language: Entry,
}

/// A species record: canonical name, numeric id, and the flavor texts.
#[derive(Debug, Clone)]
pub struct Pokemon {
    pub name: String,
    pub id: i32,
    pub flavor_text_entries: Vec<FlavorText>,
}

/// One named base stat from the stat resource.
#[derive(Debug, Clone)]
pub struct StatEntry {
    pub name: String,
    pub base_stat: i64,
}

} // verus!
