//! The session registry's decisions: attach to a live actor, or create a
//! new one from persisted or default state.
//!
//! The registry itself is a concurrency-safe directory from session id to
//! live session handle, held by the shell (lookups are read-mostly;
//! insert and remove take exclusive access). What is verified here is the
//! policy: when an attach request resolves to the live actor and when to
//! a fresh one, and what state a fresh actor starts from. Resolution
//! never fails: at worst it creates a fresh default-state session.

use vstd::prelude::*;

use crate::actor::{actor_actions, actor_next, consistent, Action, ActorModel, Event};
use crate::domain::{fold_requests, SessionState};

verus! {

/// The registry's decision for one attach request.
#[derive(Clone, Copy, PartialEq, Eq, Structural, Debug)]
pub enum ResolveAction {
    /// The entry's actor still accepts work: attach the connection to it.
    /// Live, in-memory state always wins over persisted state.
    AttachLive,
    /// No entry, or the entry's actor has terminated but is not yet
    /// reaped: create a new actor, attempting a load from storage first.
    Create,
}

/// The resolution policy. `entry` says whether the registry holds a
/// handle for the id and, if so, whether that handle's request channel is
/// still open.
pub open spec fn resolve_spec(entry: Option<bool>) -> ResolveAction {
    match entry {
        Some(true) => ResolveAction::AttachLive,
        _ => ResolveAction::Create,
    }
}

/// Decide attach-vs-create for one session id: attach exactly when a
/// handle exists and its actor is still live; otherwise create, which is
/// the only path that reads storage.
pub fn resolve_decision(entry: Option<bool>) -> (act: ResolveAction)
    ensures
        act == resolve_spec(entry),
        (act == ResolveAction::AttachLive) <==> (entry == Some(true)),
{
    match entry {
        Some(true) => ResolveAction::AttachLive,
        _ => ResolveAction::Create,
    }
}

/// The state a newly created actor starts from, given the storage
/// lookup's result.
pub open spec fn initial_state_spec(loaded: Option<SessionState>) -> SessionState {
    match loaded {
        Some(persisted) => persisted,
        None => SessionState { value: 0 },
    }
}

/// The state for a fresh actor: the persisted state on a load hit, the
/// domain default on a miss.
pub fn initial_state(loaded: Option<SessionState>) -> (s: SessionState)
    ensures
        s == initial_state_spec(loaded),
{
    match loaded {
        Some(persisted) => persisted,
        None => SessionState::default(),
    }
}

/// Persist-then-reload round-trip: whatever event terminates a live
/// actor, the one value handed to the persistence supervisor is the
/// actor's current value — the fold of everything it processed — and a
/// later create that loads it starts the new actor at exactly that value.
pub proof fn lemma_reload_persisted(m: ActorModel, ev: Event)
    requires
        consistent(m),
        !m.terminated,
        actor_next(m, ev).terminated,
    ensures
        actor_actions(m, ev) =~= seq![Action::Persist(m.value)],
        initial_state_spec(Some(SessionState { value: m.value })).value == fold_requests(
            m.init_value,
            m.processed,
        ),
{
}

} // verus!
