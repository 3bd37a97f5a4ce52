use paperspace::actor::SessionActor;
use paperspace::domain::{Request, Response, SessionState};
use paperspace::registry::{initial_state, resolve_decision, ResolveAction};

#[test]
fn fresh_actor_is_unestablished() {
    let actor = SessionActor::new(SessionState { value: 7 });
    assert!(!actor.established);
    assert!(!actor.exiting);
    assert!(!actor.terminated);
    assert_eq!(actor.state.value, 7);
}

#[test]
fn attach_replays_snapshot_and_establishes() {
    let mut actor = SessionActor::new(SessionState { value: 3 });
    let snapshot = actor.handle_websocket();
    assert_eq!(snapshot, vec![Response::Counter(3)]);
    assert!(actor.established);
    assert!(!actor.exiting);
}

#[test]
fn attach_while_exiting_cancels_exit() {
    let mut actor = SessionActor::new(SessionState { value: 0 });
    actor.handle_websocket();
    actor.note_adapters_done();
    assert!(actor.exiting);
    let snapshot = actor.handle_websocket();
    assert_eq!(snapshot, vec![Response::Counter(0)]);
    assert!(!actor.exiting);
    assert!(!actor.terminated);
}

#[test]
fn requests_broadcast_in_order() {
    let mut actor = SessionActor::new(SessionState { value: 0 });
    actor.handle_websocket();
    assert_eq!(actor.handle_request(Request::Increment()), vec![Response::Counter(1)]);
    assert_eq!(actor.handle_request(Request::Increment()), vec![Response::Counter(2)]);
    assert_eq!(actor.handle_request(Request::Decrement()), vec![Response::Counter(1)]);
    assert_eq!(actor.handle_request(Request::Reset()), vec![Response::Counter(0)]);
    assert_eq!(actor.state.value, 0);
}

#[test]
fn adapters_done_before_establishment_is_ignored() {
    let mut actor = SessionActor::new(SessionState { value: 0 });
    actor.note_adapters_done();
    assert!(!actor.exiting);
}

#[test]
fn idle_timeout_without_exit_is_ignored() {
    let mut actor = SessionActor::new(SessionState { value: 5 });
    actor.handle_websocket();
    assert_eq!(actor.note_idle_timeout(), None);
    assert!(!actor.terminated);
}

#[test]
fn idle_session_terminates_and_persists_once() {
    let mut actor = SessionActor::new(SessionState { value: 0 });
    actor.handle_websocket();
    actor.handle_request(Request::Increment());
    actor.note_adapters_done();
    assert!(actor.exiting);
    let first = actor.note_idle_timeout();
    assert_eq!(first, Some(SessionState { value: 1 }));
    assert!(actor.terminated);
    // A terminated actor accepts no further work and never persists again.
    assert_eq!(actor.note_idle_timeout(), None);
    assert_eq!(actor.note_source_closed(), None);
    assert_eq!(actor.handle_request(Request::Increment()), vec![]);
    assert_eq!(actor.handle_websocket(), vec![]);
    assert_eq!(actor.state.value, 1);
}

#[test]
fn source_closure_drains_like_idleness() {
    let mut actor = SessionActor::new(SessionState { value: 9 });
    let fin = actor.note_source_closed();
    assert_eq!(fin, Some(SessionState { value: 9 }));
    assert!(actor.terminated);
}

#[test]
fn end_to_end_session_scenario() {
    // Session "s1" starts at value 0 (nothing persisted yet).
    let decision = resolve_decision(None);
    assert_eq!(decision, ResolveAction::Create);
    let mut actor = SessionActor::new(initial_state(None));

    // Client A connects and sends Increment three times.
    let snapshot_a = actor.handle_websocket();
    assert_eq!(snapshot_a, vec![Response::Counter(0)]);
    assert_eq!(actor.handle_request(Request::Increment()), vec![Response::Counter(1)]);
    assert_eq!(actor.handle_request(Request::Increment()), vec![Response::Counter(2)]);
    assert_eq!(actor.handle_request(Request::Increment()), vec![Response::Counter(3)]);

    // Client B connects while A is still attached: resolution finds the
    // live handle and attaches, with no reload from storage.
    assert_eq!(resolve_decision(Some(true)), ResolveAction::AttachLive);
    let snapshot_b = actor.handle_websocket();
    assert_eq!(snapshot_b, vec![Response::Counter(3)]);

    // Client A sends Reset; the response is broadcast to A and B alike.
    assert_eq!(actor.handle_request(Request::Reset()), vec![Response::Counter(0)]);

    // Both disconnect; after the idle grace period the actor persists 0.
    actor.note_adapters_done();
    assert!(actor.exiting);
    let persisted = actor.note_idle_timeout();
    assert_eq!(persisted, Some(SessionState { value: 0 }));
    assert!(actor.terminated);

    // Client C reconnects: the old handle is dead, so a new actor is
    // created from the persisted state and C's snapshot replays 0.
    assert_eq!(resolve_decision(Some(false)), ResolveAction::Create);
    let mut revived = SessionActor::new(initial_state(persisted));
    let snapshot_c = revived.handle_websocket();
    assert_eq!(snapshot_c, vec![Response::Counter(0)]);
}
