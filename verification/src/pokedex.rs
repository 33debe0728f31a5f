//! The Pokedex state the UI renders: the current query text and the published
//! display record. A search updates the record atomically, so the display
//! never mixes fields of two searches.

use vstd::prelude::*;

use crate::assemble::DisplayRecord;
use crate::text::{lower_seq, lower_string};

verus! {

/// The UI-facing state: the query being edited and the fields of the last
/// published record.
#[derive(Debug, Clone)]
pub struct Pokedex {
    pub query: String,
    pub pokemon_name: String,
    pub description: String,
    pub img_bytes: Vec<u8>,
    pub stats: Vec<i64>,
}

/// A user action: editing the query text, or submitting a search.
#[derive(Debug, Clone)]
pub enum Message {
    QUERY(String),
    SEARCH,
}

impl Pokedex {
    /// A fresh Pokedex: empty texts, no sprite, six zeroed stats.
    pub fn new() -> (r: Self)
        ensures
            r.query@.len() == 0,
            r.pokemon_name@.len() == 0,
            r.description@.len() == 0,
            r.img_bytes@.len() == 0,
            r.stats@ == seq![0i64, 0i64, 0i64, 0i64, 0i64, 0i64],
    {
        let mut stats: Vec<i64> = Vec::new();
        stats.push(0);
        stats.push(0);
        stats.push(0);
        stats.push(0);
        stats.push(0);
        stats.push(0);
        assert(stats@ =~= seq![0i64, 0i64, 0i64, 0i64, 0i64, 0i64]);
        Pokedex {
            query: String::new(),
            pokemon_name: String::new(),
            description: String::new(),
            img_bytes: Vec::new(),
            stats,
        }
    }

    /// The window title.
    pub fn title(&self) -> (r: String)
        ensures
            r@ == "Simple Pokedex"@,
    {
        "Simple Pokedex".to_owned()
    }

    /// Apply a user message. Editing the query stores it lower-cased and
    /// leaves the display alone. Submitting a search changes nothing here and
    /// hands back the slug to resolve — `None` for an empty query, which is
    /// not searched.
    pub fn apply(&mut self, message: Message) -> (r: Option<String>)
        ensures
            message matches Message::QUERY(input) ==> {
                &&& final(self).query@ == lower_seq(input@)
                &&& final(self).pokemon_name == old(self).pokemon_name
                &&& final(self).description == old(self).description
                &&& final(self).img_bytes == old(self).img_bytes
                &&& final(self).stats == old(self).stats
                &&& r is None
            },
            message is SEARCH ==> {
                &&& *final(self) == *old(self)
                &&& (r is None <==> old(self).query@.len() == 0)
                &&& (r matches Some(slug) ==> slug@ == old(self).query@)
            },
    {
        match message {
            Message::QUERY(input) => {
                self.query = lower_string(input.as_str());
                None
            },
            Message::SEARCH => {
                if self.query.as_str().is_empty() {
                    None
                } else {
                    Some(self.query.clone())
                }
            },
        }
    }

    /// Publish an assembled record atomically: every display field is
    /// replaced by the record's field; the query text stays.
    pub fn publish(&mut self, record: DisplayRecord)
        ensures
            final(self).query == old(self).query,
            final(self).pokemon_name == record.display_name,
            final(self).description == record.description,
            final(self).img_bytes == record.sprite_bytes,
            final(self).stats == record.stats,
    {
        self.pokemon_name = record.display_name;
        self.description = record.description;
        self.img_bytes = record.sprite_bytes;
        self.stats = record.stats;
    }
}

} // verus!
