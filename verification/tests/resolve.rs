use simple_pokedex::distance::nearest_entry;
use simple_pokedex::resolve::{
    resolve_start, resolve_step, ResolveAction, ResolveError, ResolveEvent, ResolveState,
};

fn catalog(names: &[&str]) -> Vec<String> {
    names.iter().map(|n| n.to_string()).collect()
}

#[test]
fn start_normalizes_and_fetches_direct() {
    let (state, action) = resolve_start("PiKaChu");
    match state {
        ResolveState::AwaitDirect { slug } => assert_eq!(slug, "pikachu"),
        _ => panic!("expected AwaitDirect"),
    }
    match action {
        ResolveAction::FetchDirect { slug } => assert_eq!(slug, "pikachu"),
        _ => panic!("expected FetchDirect"),
    }
}

#[test]
fn exact_match_resolves_without_catalog() {
    let (state, _) = resolve_start("Pikachu");
    let (state, action) = resolve_step(state, ResolveEvent::Direct { found: true });
    match state {
        ResolveState::Resolved { slug } => assert_eq!(slug, "pikachu"),
        _ => panic!("expected Resolved"),
    }
    assert!(matches!(action, ResolveAction::Stop));
}

#[test]
fn direct_miss_requests_the_catalog_once() {
    let (state, _) = resolve_start("pikchu");
    let (state, action) = resolve_step(state, ResolveEvent::Direct { found: false });
    assert!(matches!(state, ResolveState::AwaitCatalog { .. }));
    assert!(matches!(action, ResolveAction::FetchCatalog));
}

#[test]
fn fallback_resolves_to_nearest_name() {
    let (state, _) = resolve_start("pikchu");
    let (state, _) = resolve_step(state, ResolveEvent::Direct { found: false });
    let names = catalog(&["bulbasaur", "charmander", "pikachu", "raichu"]);
    let (state, action) = resolve_step(state, ResolveEvent::Catalog { names: Some(names) });
    match state {
        ResolveState::Resolved { slug } => assert_eq!(slug, "pikachu"),
        _ => panic!("expected Resolved"),
    }
    assert!(matches!(action, ResolveAction::Stop));
}

#[test]
fn fallback_tie_breaks_on_first_occurrence() {
    let (state, _) = resolve_start("abc");
    let (state, _) = resolve_step(state, ResolveEvent::Direct { found: false });
    let names = catalog(&["abd", "abe"]);
    let (state, _) = resolve_step(state, ResolveEvent::Catalog { names: Some(names) });
    match state {
        ResolveState::Resolved { slug } => assert_eq!(slug, "abd"),
        _ => panic!("expected Resolved"),
    }
}

#[test]
fn empty_catalog_fails_with_not_found() {
    let (state, _) = resolve_start("missingno");
    let (state, _) = resolve_step(state, ResolveEvent::Direct { found: false });
    let (state, action) = resolve_step(state, ResolveEvent::Catalog { names: Some(Vec::new()) });
    match state {
        ResolveState::Failed { error } => assert_eq!(error, ResolveError::NotFound),
        _ => panic!("expected Failed"),
    }
    assert!(matches!(action, ResolveAction::Stop));
}

#[test]
fn unreachable_catalog_fails_resolution() {
    let (state, _) = resolve_start("missingno");
    let (state, _) = resolve_step(state, ResolveEvent::Direct { found: false });
    let (state, action) = resolve_step(state, ResolveEvent::Catalog { names: None });
    match state {
        ResolveState::Failed { error } => assert_eq!(error, ResolveError::CatalogUnavailable),
        _ => panic!("expected Failed"),
    }
    assert!(matches!(action, ResolveAction::Stop));
}

#[test]
fn resolution_ends_after_at_most_two_events() {
    // Even when the nearest match is a name whose own direct lookup would
    // fail again, the run is over after the catalog pass: the state is
    // terminal and the action is Stop.
    let (state, _) = resolve_start("qqqqq");
    let (state, _) = resolve_step(state, ResolveEvent::Direct { found: false });
    let names = catalog(&["zzzzz"]);
    let (state, action) = resolve_step(state, ResolveEvent::Catalog { names: Some(names) });
    assert!(matches!(state, ResolveState::Resolved { .. } | ResolveState::Failed { .. }));
    assert!(matches!(action, ResolveAction::Stop));
}

#[test]
fn nearest_entry_prefers_smaller_edit_distance() {
    let names = catalog(&["bulbasaur", "charmander", "charizard"]);
    // "charzard" is one deletion away from "charizard" only.
    assert_eq!(nearest_entry("charzard", &names), Some(2));
}

#[test]
fn nearest_entry_counts_transposition_as_one_edit() {
    let names = catalog(&["acb", "axy"]);
    // Damerau-Levenshtein: "abc" -> "acb" is a single adjacent transposition,
    // while "abc" -> "axy" needs two substitutions.
    assert_eq!(nearest_entry("abc", &names), Some(0));
}

#[test]
fn nearest_entry_empty_catalog_is_none() {
    assert_eq!(nearest_entry("abc", &Vec::new()), None);
}
