use paperspace::domain::{Request, Response, SessionState, State};

#[test]
fn increment_yields_new_value() {
    let mut s = SessionState::default();
    let out = s.update(Request::Increment());
    assert_eq!(out, vec![Response::Counter(1)]);
    assert_eq!(s.value, 1);
}

#[test]
fn decrement_yields_new_value() {
    let mut s = SessionState { value: 5 };
    let out = s.update(Request::Decrement());
    assert_eq!(out, vec![Response::Counter(4)]);
    assert_eq!(s.value, 4);
}

#[test]
fn reset_returns_to_zero() {
    let mut s = SessionState { value: 41 };
    let out = s.update(Request::Reset());
    assert_eq!(out, vec![Response::Counter(0)]);
    assert_eq!(s.value, 0);
}

#[test]
fn increment_wraps_at_max() {
    let mut s = SessionState { value: i64::MAX };
    let out = s.update(Request::Increment());
    assert_eq!(out, vec![Response::Counter(i64::MIN)]);
    assert_eq!(s.value, i64::MIN);
}

#[test]
fn decrement_wraps_at_min() {
    let mut s = SessionState { value: i64::MIN };
    let out = s.update(Request::Decrement());
    assert_eq!(out, vec![Response::Counter(i64::MAX)]);
    assert_eq!(s.value, i64::MAX);
}

#[test]
fn dump_replays_current_value() {
    let s = SessionState { value: -3 };
    assert_eq!(s.dump(), vec![Response::Counter(-3)]);
}

#[test]
fn default_state_is_zero() {
    let s = SessionState::default();
    assert_eq!(s.value, 0);
}

#[test]
fn sequence_folds_left() {
    // The final state is the left-fold of the request sequence.
    let reqs = [
        Request::Increment(),
        Request::Increment(),
        Request::Decrement(),
        Request::Increment(),
        Request::Reset(),
        Request::Increment(),
        Request::Increment(),
    ];
    let mut s = SessionState::default();
    let mut last = Vec::new();
    for r in reqs {
        last = s.update(r);
    }
    assert_eq!(s.value, 2);
    assert_eq!(last, vec![Response::Counter(2)]);
}
