use simple_pokedex::assemble::{
    assemble_record, assemble_start, assemble_step, error_record, extract_stats, find_english,
    not_found_record, AssembleAction, AssembleEvent, AssembleState, DisplayRecord,
};
use simple_pokedex::pokemon::{Entry, FlavorText, Pokemon, StatEntry};

fn flavor(text: &str, lang: &str) -> FlavorText {
    FlavorText {
        flavor_text: text.to_string(),
        language: Entry { name: lang.to_string() },
    }
}

fn stat(name: &str, value: i64) -> StatEntry {
    StatEntry { name: name.to_string(), base_stat: value }
}

fn charizard() -> Pokemon {
    Pokemon {
        name: "charizard".to_string(),
        id: 6,
        flavor_text_entries: vec![
            flavor("Crache du feu.", "fr"),
            flavor("Spits fire\nthat can melt rock.", "en"),
            flavor("Another entry.", "en"),
        ],
    }
}

fn charizard_stats() -> Vec<StatEntry> {
    vec![
        stat("hp", 78),
        stat("attack", 84),
        stat("defense", 78),
        stat("special-attack", 109),
        stat("special-defense", 85),
        stat("speed", 100),
    ]
}

fn assert_cleared(record: &DisplayRecord) {
    assert!(record.display_name.is_empty());
    assert!(!record.description.is_empty());
    assert!(record.sprite_bytes.is_empty());
    assert!(record.stats.is_empty());
}

#[test]
fn valid_slug_yields_six_stats_in_fixed_order() {
    let record = assemble_record(charizard(), vec![1, 2, 3], Some(charizard_stats()));
    assert_eq!(record.stats, vec![78, 84, 78, 109, 85, 100]);
    assert_eq!(record.display_name, "Charizard");
    assert_eq!(record.description, "Spits fire that can melt rock.");
    assert_eq!(record.sprite_bytes, vec![1, 2, 3]);
}

#[test]
fn stats_are_picked_by_name_not_position() {
    let mut entries = charizard_stats();
    entries.reverse();
    let record = assemble_record(charizard(), Vec::new(), Some(entries));
    assert_eq!(record.stats, vec![78, 84, 78, 109, 85, 100]);
}

#[test]
fn first_english_flavor_text_wins() {
    let found = find_english(&charizard().flavor_text_entries);
    assert_eq!(found.as_deref(), Some("Spits fire\nthat can melt rock."));
}

#[test]
fn no_english_flavor_text_clears_the_record() {
    let mut species = charizard();
    species.flavor_text_entries = vec![flavor("Crache du feu.", "fr")];
    let record = assemble_record(species, vec![1], Some(charizard_stats()));
    assert_cleared(&record);
    assert_eq!(record.description, "No English description is available.");
}

#[test]
fn missing_stat_name_clears_the_record() {
    let mut entries = charizard_stats();
    entries.remove(3); // drop special-attack
    let record = assemble_record(charizard(), vec![1], Some(entries));
    assert_cleared(&record);
    assert_eq!(record.description, "The stat data is incomplete.");
}

#[test]
fn failed_stat_fetch_clears_the_record() {
    let record = assemble_record(charizard(), vec![1], None);
    assert_cleared(&record);
    assert_eq!(record.description, "The stats could not be fetched.");
}

#[test]
fn extract_stats_requires_all_six_names() {
    assert_eq!(
        extract_stats(&charizard_stats()),
        Some(vec![78, 84, 78, 109, 85, 100])
    );
    assert_eq!(extract_stats(&Vec::new()), None);
}

#[test]
fn invalid_slug_never_mixes_stale_fields() {
    let (state, action) = assemble_start("missingno".to_string());
    assert!(matches!(action, AssembleAction::FetchSpecies { .. }));
    let (state, action) = assemble_step(state, AssembleEvent::Species { result: None });
    match state {
        AssembleState::Complete { record } => {
            assert_cleared(&record);
            assert_eq!(record.description, "Unable to find that pokemon.");
        },
        _ => panic!("expected Complete"),
    }
    assert!(matches!(action, AssembleAction::Stop));
}

#[test]
fn sprite_failure_degrades_gracefully() {
    let (state, _) = assemble_start("charizard".to_string());
    let (state, action) =
        assemble_step(state, AssembleEvent::Species { result: Some(charizard()) });
    match &action {
        AssembleAction::FetchSprite { id } => assert_eq!(*id, 6),
        _ => panic!("expected FetchSprite"),
    }
    let (state, action) = assemble_step(state, AssembleEvent::Sprite { result: None });
    match &action {
        AssembleAction::FetchStats { slug } => assert_eq!(slug, "charizard"),
        _ => panic!("expected FetchStats"),
    }
    let (state, action) =
        assemble_step(state, AssembleEvent::Stats { result: Some(charizard_stats()) });
    match state {
        AssembleState::Complete { record } => {
            assert!(record.sprite_bytes.is_empty());
            assert_eq!(record.display_name, "Charizard");
            assert_eq!(record.stats, vec![78, 84, 78, 109, 85, 100]);
        },
        _ => panic!("expected Complete"),
    }
    assert!(matches!(action, AssembleAction::Stop));
}

#[test]
fn successful_sprite_fetch_is_kept() {
    let (state, _) = assemble_start("charizard".to_string());
    let (state, _) = assemble_step(state, AssembleEvent::Species { result: Some(charizard()) });
    let (state, _) = assemble_step(state, AssembleEvent::Sprite { result: Some(vec![9, 9]) });
    let (state, _) =
        assemble_step(state, AssembleEvent::Stats { result: Some(charizard_stats()) });
    match state {
        AssembleState::Complete { record } => assert_eq!(record.sprite_bytes, vec![9, 9]),
        _ => panic!("expected Complete"),
    }
}

#[test]
fn not_found_record_is_cleared_with_message() {
    let record = not_found_record();
    assert_cleared(&record);
    assert_eq!(record.description, "Unable to find that pokemon.");
}

#[test]
fn error_record_keeps_the_message_only() {
    let record = error_record("something went wrong");
    assert_cleared(&record);
    assert_eq!(record.description, "something went wrong");
}
