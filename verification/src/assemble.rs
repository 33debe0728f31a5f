//! The assembler: a step machine that turns a resolved slug into a
//! display-ready record. The host fetches the species record, the sprite and
//! the stat list; this module decides what each outcome means and builds the
//! record.
//!
//! A failed species lookup, a missing English flavor text or incomplete stat
//! data each yield a fully cleared record with an error description — never a
//! record that mixes fresh and stale fields. A failed sprite fetch alone is
//! tolerated: the sprite stays empty and the rest is assembled.

use vstd::prelude::*;

use crate::pokemon::{FlavorText, Pokemon, StatEntry};
use crate::text::{clean_text, clean_description, display_name_of, format_display_name};

verus! {

/// The fully assembled, render-ready result of one search action.
#[derive(Debug, Clone)]
pub struct DisplayRecord {
    pub display_name: String,
    pub description: String,
    pub sprite_bytes: Vec<u8>,
    pub stats: Vec<i64>,
}

/// The first flavor text tagged with the English language code, if any.
pub open spec fn english_flavor(entries: Seq<FlavorText>) -> Option<Seq<char>>
    decreases entries.len(),
{
    if entries.len() == 0 {
        None
    } else if entries[0].language.name@ == "en"@ {
        Some(entries[0].flavor_text@)
    } else {
        english_flavor(entries.skip(1))
    }
}

/// The base stat of the first entry with the given name, if any.
pub open spec fn lookup_stat(entries: Seq<StatEntry>, name: Seq<char>) -> Option<i64>
    decreases entries.len(),
{
    if entries.len() == 0 {
        None
    } else if entries[0].name@ == name {
        Some(entries[0].base_stat)
    } else {
        lookup_stat(entries.skip(1), name)
    }
}

/// The six stat names, in the fixed display order.
pub open spec fn stat_names() -> Seq<Seq<char>> {
    seq!["hp"@, "attack"@, "defense"@, "special-attack"@, "special-defense"@, "speed"@]
}

/// The six base stats in display order, or `None` when any of the six names
/// is missing from the stat resource.
pub open spec fn stats_of(entries: Seq<StatEntry>) -> Option<Seq<i64>> {
    if forall|k: int| 0 <= k < 6 ==> #[trigger] lookup_stat(entries, stat_names()[k]) is Some {
        Some(Seq::new(6, |k: int| lookup_stat(entries, stat_names()[k]).unwrap()))
    } else {
        None
    }
}

/// The error text shown when no species record matches the slug.
pub open spec fn not_found_text() -> Seq<char> {
    "Unable to find that pokemon."@
}

/// The error text shown when the species record has no English flavor text.
pub open spec fn no_description_text() -> Seq<char> {
    "No English description is available."@
}

/// The error text shown when the stat resource could not be fetched.
pub open spec fn stats_unavailable_text() -> Seq<char> {
    "The stats could not be fetched."@
}

/// The error text shown when the stat resource misses one of the six stats.
pub open spec fn bad_stats_text() -> Seq<char> {
    "The stat data is incomplete."@
}

/// A fully cleared record carrying only a non-empty error description: empty
/// display name, empty sprite, empty stats.
pub open spec fn is_error_record(r: DisplayRecord, msg: Seq<char>) -> bool {
    &&& r.display_name@.len() == 0
    &&& r.description@ == msg
    &&& msg.len() > 0
    &&& r.sprite_bytes@.len() == 0
    &&& r.stats@.len() == 0
}

/// What the record assembled from a fetched species record, sprite bytes and
/// stat outcome must look like.
pub open spec fn record_matches(
    r: DisplayRecord,
    species: Pokemon,
    sprite: Seq<u8>,
    stats: Option<Vec<StatEntry>>,
) -> bool {
    match english_flavor(species.flavor_text_entries@) {
        None => is_error_record(r, no_description_text()),
        Some(text) => match stats {
            None => is_error_record(r, stats_unavailable_text()),
            Some(entries) => match stats_of(entries@) {
                None => is_error_record(r, bad_stats_text()),
                Some(values) => {
                    &&& r.display_name@ == display_name_of(species.name@)
                    &&& r.description@ == clean_text(text)
                    &&& r.sprite_bytes@ == sprite
                    &&& r.stats@ == values
                },
            },
        },
    }
}

/// Find the first English flavor text of a species record.
pub fn find_english(entries: &Vec<FlavorText>) -> (r: Option<String>)
    ensures
        r matches Some(t) ==> english_flavor(entries@) == Some(t@),
        r is None <==> english_flavor(entries@) is None,
{
    let en: String = "en".to_owned();
    let mut i: usize = 0;
    assert(entries@.skip(0) =~= entries@);
    while i < entries.len()
        invariant
            i <= entries@.len(),
            en@ == "en"@,
            english_flavor(entries@) == english_flavor(entries@.skip(i as int)),
        decreases entries@.len() - i,
    {
        assert(entries@.skip(i as int)[0] == entries@[i as int]);
        if entries[i].language.name == en {
            let text = entries[i].flavor_text.clone();
            return Some(text);
        }
        assert(entries@.skip(i as int).skip(1) =~= entries@.skip(i + 1));
        i = i + 1;
    }
    assert(entries@.skip(i as int) =~= Seq::<FlavorText>::empty());
    None
}

/// Find the base stat with the given name in the stat resource.
fn find_stat(entries: &Vec<StatEntry>, name: &String) -> (r: Option<i64>)
    ensures
        r == lookup_stat(entries@, name@),
{
    let mut i: usize = 0;
    assert(entries@.skip(0) =~= entries@);
    while i < entries.len()
        invariant
            i <= entries@.len(),
            lookup_stat(entries@, name@) == lookup_stat(entries@.skip(i as int), name@),
        decreases entries@.len() - i,
    {
        assert(entries@.skip(i as int)[0] == entries@[i as int]);
        if entries[i].name == *name {
            return Some(entries[i].base_stat);
        }
        assert(entries@.skip(i as int).skip(1) =~= entries@.skip(i + 1));
        i = i + 1;
    }
    assert(entries@.skip(i as int) =~= Seq::<StatEntry>::empty());
    None
}

/// Extract the six base stats in display order, or `None` when one is
/// missing.
pub fn extract_stats(entries: &Vec<StatEntry>) -> (r: Option<Vec<i64>>)
    ensures
        r matches Some(v) ==> stats_of(entries@) == Some(v@),
        r is None <==> stats_of(entries@) is None,
{
    let hp_name: String = "hp".to_owned();
    let attack_name: String = "attack".to_owned();
    let defense_name: String = "defense".to_owned();
    let sp_attack_name: String = "special-attack".to_owned();
    let sp_defense_name: String = "special-defense".to_owned();
    let speed_name: String = "speed".to_owned();
    let hp = find_stat(entries, &hp_name);
    let attack = find_stat(entries, &attack_name);
    let defense = find_stat(entries, &defense_name);
    let sp_attack = find_stat(entries, &sp_attack_name);
    let sp_defense = find_stat(entries, &sp_defense_name);
    let speed = find_stat(entries, &speed_name);
    proof {
        assert(stat_names()[0] == "hp"@);
        assert(stat_names()[1] == "attack"@);
        assert(stat_names()[2] == "defense"@);
        assert(stat_names()[3] == "special-attack"@);
        assert(stat_names()[4] == "special-defense"@);
        assert(stat_names()[5] == "speed"@);
    }
    match (hp, attack, defense, sp_attack, sp_defense, speed) {
        (Some(v0), Some(v1), Some(v2), Some(v3), Some(v4), Some(v5)) => {
            let mut values: Vec<i64> = Vec::new();
            values.push(v0);
            values.push(v1);
            values.push(v2);
            values.push(v3);
            values.push(v4);
            values.push(v5);
            proof {
                assert forall|k: int| 0 <= k < 6 implies #[trigger] lookup_stat(
                    entries@,
                    stat_names()[k],
                ) is Some by {
                    if k == 0 {
                    } else if k == 1 {
                    } else if k == 2 {
                    } else if k == 3 {
                    } else if k == 4 {
                    } else {
                        assert(k == 5);
                    }
                }
                assert(values@ =~= stats_of(entries@).unwrap());
            }
            Some(values)
        },
        _ => {
            proof {
                if hp is None {
                    assert(lookup_stat(entries@, stat_names()[0]) is None);
                } else if attack is None {
                    assert(lookup_stat(entries@, stat_names()[1]) is None);
                } else if defense is None {
                    assert(lookup_stat(entries@, stat_names()[2]) is None);
                } else if sp_attack is None {
                    assert(lookup_stat(entries@, stat_names()[3]) is None);
                } else if sp_defense is None {
                    assert(lookup_stat(entries@, stat_names()[4]) is None);
                } else {
                    assert(lookup_stat(entries@, stat_names()[5]) is None);
                }
            }
            None
        },
    }
}

/// A cleared record that carries only the given error message.
pub fn error_record(message: &str) -> (r: DisplayRecord)
    requires
        message@.len() > 0,
    ensures
        is_error_record(r, message@),
{
    DisplayRecord {
        display_name: String::new(),
        description: message.to_owned(),
        sprite_bytes: Vec::new(),
        stats: Vec::new(),
    }
}

/// The cleared record shown when no species record matches the slug.
pub fn not_found_record() -> (r: DisplayRecord)
    ensures
        is_error_record(r, not_found_text()),
{
    proof {
        reveal_strlit("Unable to find that pokemon.");
    }
    error_record("Unable to find that pokemon.")
}

/// Assemble the display record from the fetched parts: species record, sprite
/// bytes (empty when that fetch failed) and the stat outcome.
pub fn assemble_record(species: Pokemon, sprite: Vec<u8>, stats: Option<Vec<StatEntry>>) -> (r:
    DisplayRecord)
    ensures
        record_matches(r, species, sprite@, stats),
{
    match find_english(&species.flavor_text_entries) {
        None => {
            proof {
                reveal_strlit("No English description is available.");
            }
            error_record("No English description is available.")
        },
        Some(text) => {
            match stats {
                None => {
                    proof {
                        reveal_strlit("The stats could not be fetched.");
                    }
                    error_record("The stats could not be fetched.")
                },
                Some(entries) => {
                    match extract_stats(&entries) {
                        None => {
                            proof {
                                reveal_strlit("The stat data is incomplete.");
                            }
                            error_record("The stat data is incomplete.")
                        },
                        Some(values) => {
                            DisplayRecord {
                                display_name: format_display_name(species.name.as_str()),
                                description: clean_description(text.as_str()),
                                sprite_bytes: sprite,
                                stats: values,
                            }
                        },
                    }
                },
            }
        },
    }
}

/// The assembler's state between fetches.
#[derive(Debug, Clone)]
pub enum AssembleState {
    /// The species lookup for `slug` is in flight.
    AwaitSpecies { slug: String },
    /// The species record arrived; the sprite fetch is in flight.
    AwaitSprite { species: Pokemon, slug: String },
    /// The sprite outcome arrived; the stat fetch is in flight.
    AwaitStats { species: Pokemon, sprite: Vec<u8>, slug: String },
    /// The record is ready to publish.
    Complete { record: DisplayRecord },
}

/// The outcome of a fetch the host performed.
#[derive(Debug, Clone)]
pub enum AssembleEvent {
    /// The species record, or `None` when the lookup failed.
    Species { result: Option<Pokemon> },
    /// The sprite bytes, or `None` when that fetch failed.
    Sprite { result: Option<Vec<u8>> },
    /// The stat resource, or `None` when that fetch failed.
    Stats { result: Option<Vec<StatEntry>> },
}

/// What the host must do next.
#[derive(Debug, Clone)]
pub enum AssembleAction {
    /// Fetch the species record for this slug.
    FetchSpecies { slug: String },
    /// Fetch the sprite image for this numeric species id.
    FetchSprite { id: i32 },
    /// Fetch the stat resource for this slug.
    FetchStats { slug: String },
    /// Assembly is over; the state is `Complete`.
    Stop,
}

/// States that accept no further event.
pub open spec fn assemble_terminal(s: AssembleState) -> bool {
    s is Complete
}

/// The event kind each state awaits.
pub open spec fn assemble_expects(s: AssembleState, e: AssembleEvent) -> bool {
    match s {
        AssembleState::AwaitSpecies { .. } => e is Species,
        AssembleState::AwaitSprite { .. } => e is Sprite,
        AssembleState::AwaitStats { .. } => e is Stats,
        _ => false,
    }
}

/// Steps left until the machine must be terminal; every transition strictly
/// decreases it.
pub open spec fn assemble_measure(s: AssembleState) -> nat {
    match s {
        AssembleState::AwaitSpecies { .. } => 3,
        AssembleState::AwaitSprite { .. } => 2,
        AssembleState::AwaitStats { .. } => 1,
        _ => 0,
    }
}

/// The assembler's transition relation: exactly the behaviour of
/// `assemble_step` on a state that expects the event.
pub open spec fn assemble_transition(
    pre: AssembleState,
    event: AssembleEvent,
    post: AssembleState,
    action: AssembleAction,
) -> bool {
    match (pre, event) {
        (AssembleState::AwaitSpecies { slug }, AssembleEvent::Species { result }) => {
            match result {
                None => {
                    &&& post matches AssembleState::Complete { record }
                    &&& is_error_record(record, not_found_text())
                    &&& action == AssembleAction::Stop
                },
                Some(species) => {
                    &&& post == (AssembleState::AwaitSprite { species, slug })
                    &&& action == (AssembleAction::FetchSprite { id: species.id })
                },
            }
        },
        (AssembleState::AwaitSprite { species, slug }, AssembleEvent::Sprite { result }) => {
            &&& post matches AssembleState::AwaitStats { species: sp, sprite, slug: sl }
            &&& sp == species
            &&& sl == slug
            &&& sprite@ == (match result {
                Some(bytes) => bytes@,
                None => Seq::<u8>::empty(),
            })
            &&& action == (AssembleAction::FetchStats { slug })
        },
        (AssembleState::AwaitStats { species, sprite, .. }, AssembleEvent::Stats { result }) => {
            &&& post matches AssembleState::Complete { record }
            &&& record_matches(record, species, sprite@, result)
            &&& action == AssembleAction::Stop
        },
        _ => false,
    }
}

/// Begin assembling a record for a resolved slug: ask the host for the
/// species record.
pub fn assemble_start(slug: String) -> (r: (AssembleState, AssembleAction))
    ensures
        r.0 matches AssembleState::AwaitSpecies { slug: s } && s == slug,
        r.1 matches AssembleAction::FetchSpecies { slug: s } && s == slug,
{
    let slug_again = slug.clone();
    (
        AssembleState::AwaitSpecies { slug },
        AssembleAction::FetchSpecies { slug: slug_again },
    )
}

/// Advance the assembler by one fetch outcome.
pub fn assemble_step(state: AssembleState, event: AssembleEvent) -> (r: (
    AssembleState,
    AssembleAction,
))
    requires
        assemble_expects(state, event),
    ensures
        assemble_transition(state, event, r.0, r.1),
        assemble_measure(r.0) < assemble_measure(state),
        assemble_terminal(r.0) <==> r.1 is Stop,
{
    match (state, event) {
        (AssembleState::AwaitSpecies { slug }, AssembleEvent::Species { result }) => {
            match result {
                None => {
                    (AssembleState::Complete { record: not_found_record() }, AssembleAction::Stop)
                },
                Some(species) => {
                    let id = species.id;
                    (
                        AssembleState::AwaitSprite { species, slug },
                        AssembleAction::FetchSprite { id },
                    )
                },
            }
        },
        (AssembleState::AwaitSprite { species, slug }, AssembleEvent::Sprite { result }) => {
            let sprite = match result {
                Some(bytes) => bytes,
                None => Vec::new(),
            };
            let slug_again = slug.clone();
            (
                AssembleState::AwaitStats { species, sprite, slug },
                AssembleAction::FetchStats { slug: slug_again },
            )
        },
        (AssembleState::AwaitStats { species, sprite, slug: _ }, AssembleEvent::Stats { result }) => {
            (
                AssembleState::Complete { record: assemble_record(species, sprite, result) },
                AssembleAction::Stop,
            )
        },
        _ => vstd::pervasive::unreached(),
    }
}

/// Law: on a valid slug — the species record arrived with an English flavor
/// text and the stat resource holds all six names — the completed record
/// carries exactly six stats, in the fixed order hp, attack, defense,
/// special-attack, special-defense, speed, beside the formatted name, the
/// cleaned description and the fetched sprite.
pub proof fn lemma_valid_slug_record(
    r: DisplayRecord,
    species: Pokemon,
    sprite: Seq<u8>,
    entries: Vec<StatEntry>,
)
    requires
        record_matches(r, species, sprite, Some(entries)),
        english_flavor(species.flavor_text_entries@) is Some,
        stats_of(entries@) is Some,
    ensures
        r.stats@.len() == 6,
        forall|k: int|
            0 <= k < 6 ==> r.stats@[k] == lookup_stat(entries@, stat_names()[k]).unwrap(),
        r.display_name@ == display_name_of(species.name@),
        r.description@ == clean_text(english_flavor(species.flavor_text_entries@).unwrap()),
        r.sprite_bytes@ == sprite,
{
}

/// Law: on an invalid slug — the species lookup failed — the completed record
/// is fully cleared: empty display name, empty sprite, empty stats, and a
/// non-empty error description. No field of any earlier search survives.
pub proof fn lemma_invalid_slug_record(
    slug: String,
    post: AssembleState,
    action: AssembleAction,
)
    requires
        assemble_transition(
            AssembleState::AwaitSpecies { slug },
            AssembleEvent::Species { result: None },
            post,
            action,
        ),
    ensures
        post matches AssembleState::Complete { record } && {
            &&& record.display_name@.len() == 0
            &&& record.description@ == not_found_text()
            &&& record.description@.len() > 0
            &&& record.sprite_bytes@.len() == 0
            &&& record.stats@.len() == 0
        },
        action == AssembleAction::Stop,
{
}

} // verus!
