//! The resolver: a step machine that maps a free-text query to a canonical
//! species slug. The host performs each requested fetch and hands the outcome
//! back as an event; every decision is made here.
//!
//! A search first tries the query itself as a slug. Only when that direct
//! lookup fails is the full catalog requested, and a single nearest-match
//! pass picks the catalog entry with the least edit distance. The machine
//! never returns to an earlier state, so resolution always terminates.

use vstd::prelude::*;

use crate::distance::{is_nearest, nearest_entry};
use crate::text::{lower_seq, lower_string};

verus! {

/// Why a resolution ended without a slug.
#[derive(Debug, Clone, PartialEq, Eq)]
pub enum ResolveError {
    /// The catalog was fetched but holds no entry at all.
    NotFound,
    /// The catalog could not be fetched.
    CatalogUnavailable,
}

/// The resolver's state between fetches.
#[derive(Debug, Clone)]
pub enum ResolveState {
    /// The direct lookup of `slug` is in flight.
    AwaitDirect { slug: String },
    /// The direct lookup of `query` failed; the catalog fetch is in flight.
    AwaitCatalog { query: String },
    /// Resolution succeeded with this slug.
    Resolved { slug: String },
    /// Resolution failed.
    Failed { error: ResolveError },
}

/// The outcome of a fetch the host performed.
#[derive(Debug, Clone)]
pub enum ResolveEvent {
    /// Whether the direct species lookup found a record.
    Direct { found: bool },
    /// The catalog names, or `None` when the fetch failed.
    Catalog { names: Option<Vec<String>> },
}

/// What the host must do next.
#[derive(Debug, Clone)]
pub enum ResolveAction {
    /// Look the slug up directly as a species record.
    FetchDirect { slug: String },
    /// Fetch the full species catalog.
    FetchCatalog,
    /// Resolution is over; the state is terminal.
    Stop,
}

/// States that accept no further event.
pub open spec fn is_terminal(s: ResolveState) -> bool {
    s is Resolved || s is Failed
}

/// The event kind each state awaits.
pub open spec fn resolve_expects(s: ResolveState, e: ResolveEvent) -> bool {
    match s {
        ResolveState::AwaitDirect { .. } => e is Direct,
        ResolveState::AwaitCatalog { .. } => e is Catalog,
        _ => false,
    }
}

/// Steps left until the machine must be terminal; every transition strictly
/// decreases it.
pub open spec fn resolve_measure(s: ResolveState) -> nat {
    match s {
        ResolveState::AwaitDirect { .. } => 2,
        ResolveState::AwaitCatalog { .. } => 1,
        _ => 0,
    }
}

/// The resolver's transition relation: exactly the behaviour of
/// `resolve_step` on a state that expects the event.
pub open spec fn resolve_transition(
    pre: ResolveState,
    event: ResolveEvent,
    post: ResolveState,
    action: ResolveAction,
) -> bool {
    match (pre, event) {
        (ResolveState::AwaitDirect { slug }, ResolveEvent::Direct { found }) => {
            if found {
                post == (ResolveState::Resolved { slug }) && action == ResolveAction::Stop
            } else {
                post == (ResolveState::AwaitCatalog { query: slug }) && action
                    == ResolveAction::FetchCatalog
            }
        },
        (ResolveState::AwaitCatalog { query }, ResolveEvent::Catalog { names }) => {
            match names {
                Some(ns) => {
                    if ns@.len() == 0 {
                        post == (ResolveState::Failed { error: ResolveError::NotFound }) && action
                            == ResolveAction::Stop
                    } else {
                        action == ResolveAction::Stop && exists|i: int|
                            #[trigger] is_nearest(query@, ns@, i) && post == (ResolveState::Resolved {
                                slug: ns@[i],
                            })
                    }
                },
                None => {
                    post == (ResolveState::Failed { error: ResolveError::CatalogUnavailable })
                        && action == ResolveAction::Stop
                },
            }
        },
        _ => false,
    }
}

/// Begin resolving a query: normalize it to lower case and ask the host for
/// the direct species lookup.
pub fn resolve_start(query: &str) -> (r: (ResolveState, ResolveAction))
    ensures
        r.0 matches ResolveState::AwaitDirect { slug } && slug@ == lower_seq(query@),
        r.1 matches ResolveAction::FetchDirect { slug } && slug@ == lower_seq(query@),
{
    let normalized = lower_string(query);
    let slug_again = normalized.clone();
    (
        ResolveState::AwaitDirect { slug: normalized },
        ResolveAction::FetchDirect { slug: slug_again },
    )
}

/// Advance the resolver by one fetch outcome.
pub fn resolve_step(state: ResolveState, event: ResolveEvent) -> (r: (ResolveState, ResolveAction))
    requires
        resolve_expects(state, event),
    ensures
        resolve_transition(state, event, r.0, r.1),
        resolve_measure(r.0) < resolve_measure(state),
        is_terminal(r.0) <==> r.1 is Stop,
{
    match (state, event) {
        (ResolveState::AwaitDirect { slug }, ResolveEvent::Direct { found }) => {
            if found {
                (ResolveState::Resolved { slug }, ResolveAction::Stop)
            } else {
                (ResolveState::AwaitCatalog { query: slug }, ResolveAction::FetchCatalog)
            }
        },
        (ResolveState::AwaitCatalog { query }, ResolveEvent::Catalog { names }) => {
            match names {
                Some(ns) => {
                    match nearest_entry(query.as_str(), &ns) {
                        Some(i) => {
                            let chosen = ns[i].clone();
                            assert(is_nearest(query@, ns@, i as int));
                            (ResolveState::Resolved { slug: chosen }, ResolveAction::Stop)
                        },
                        None => {
                            (
                                ResolveState::Failed { error: ResolveError::NotFound },
                                ResolveAction::Stop,
                            )
                        },
                    }
                },
                None => {
                    (
                        ResolveState::Failed { error: ResolveError::CatalogUnavailable },
                        ResolveAction::Stop,
                    )
                },
            }
        },
        _ => vstd::pervasive::unreached(),
    }
}

/// Step `i` of a run is a resolver transition.
pub open spec fn run_step(
    states: Seq<ResolveState>,
    events: Seq<ResolveEvent>,
    actions: Seq<ResolveAction>,
    i: int,
) -> bool {
    resolve_transition(states[i], events[i], states[i + 1], actions[i])
}

/// A chain of resolver transitions: `states` visited in order, driven by
/// `events`, emitting `actions`.
pub open spec fn is_resolve_run(
    states: Seq<ResolveState>,
    events: Seq<ResolveEvent>,
    actions: Seq<ResolveAction>,
) -> bool {
    &&& states.len() == events.len() + 1
    &&& actions.len() == events.len()
    &&& states[0] is AwaitDirect
    &&& forall|i: int| 0 <= i < events.len() ==> #[trigger] run_step(states, events, actions, i)
}

/// Law: resolution terminates. Starting from the state `resolve_start`
/// returns, no chain of transitions visits more than three states, and from
/// the third state on the resolver is terminal. In particular, when the
/// nearest-match pass picks a name whose own direct lookup would fail again,
/// the run is already over: no state leads back to another lookup.
pub proof fn lemma_resolution_terminates(
    states: Seq<ResolveState>,
    events: Seq<ResolveEvent>,
    actions: Seq<ResolveAction>,
)
    requires
        is_resolve_run(states, events, actions),
    ensures
        states.len() <= 3,
        forall|i: int| 2 <= i < states.len() ==> is_terminal(#[trigger] states[i]),
{
    if events.len() >= 1 {
        assert(run_step(states, events, actions, 0));
        assert(states[1] is AwaitCatalog || is_terminal(states[1]));
    }
    if events.len() >= 2 {
        assert(run_step(states, events, actions, 1));
        assert(states[1] is AwaitCatalog);
        assert(is_terminal(states[2]));
    }
    if events.len() >= 3 {
        assert(run_step(states, events, actions, 2));
        assert(false);
    }
}

/// Law: a query whose direct lookup succeeds resolves to its own normalized
/// slug, and the run issues no catalog fetch: its one transition emits Stop.
pub proof fn lemma_exact_match_no_catalog(
    states: Seq<ResolveState>,
    events: Seq<ResolveEvent>,
    actions: Seq<ResolveAction>,
)
    requires
        is_resolve_run(states, events, actions),
        events.len() >= 1,
        events[0] == (ResolveEvent::Direct { found: true }),
    ensures
        states.len() == 2,
        states[0] matches ResolveState::AwaitDirect { slug } && states[1]
            == (ResolveState::Resolved { slug }),
        forall|i: int| 0 <= i < actions.len() ==> actions[i] != ResolveAction::FetchCatalog,
{
    assert(run_step(states, events, actions, 0));
    assert(is_terminal(states[1]));
    if events.len() >= 2 {
        assert(run_step(states, events, actions, 1));
        assert(false);
    }
    assert(actions[0] == ResolveAction::Stop);
}

/// Law: a query whose direct lookup fails triggers exactly one catalog-wide
/// nearest-match pass: the run's actions are the single catalog fetch
/// followed by Stop, and for a non-empty catalog the run resolves to the
/// entry minimizing the edit distance to the normalized query, the earliest
/// such entry on ties.
pub proof fn lemma_fallback_single_catalog_pass(
    states: Seq<ResolveState>,
    events: Seq<ResolveEvent>,
    actions: Seq<ResolveAction>,
    names: Vec<String>,
)
    requires
        is_resolve_run(states, events, actions),
        events.len() == 2,
        events[0] == (ResolveEvent::Direct { found: false }),
        events[1] == (ResolveEvent::Catalog { names: Some(names) }),
        names@.len() > 0,
    ensures
        actions[0] == ResolveAction::FetchCatalog,
        actions[1] == ResolveAction::Stop,
        states[0] matches ResolveState::AwaitDirect { slug } && exists|i: int|
            #[trigger] is_nearest(slug@, names@, i) && states[2] == (ResolveState::Resolved {
                slug: names@[i],
            }),
{
    assert(run_step(states, events, actions, 0));
    assert(run_step(states, events, actions, 1));
}

} // verus!
