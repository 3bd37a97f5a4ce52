use paperspace::actor::SessionActor;
use paperspace::adapter::{encode_snapshot, reader_step, subsequence_of, ReaderAction, ReaderEvent};
use paperspace::domain::{Request, Response, SessionState};

#[test]
fn forwards_wellformed_frames() {
    let act = reader_step(&ReaderEvent::Frame(b"\"Increment\"".to_vec()));
    assert_eq!(act, ReaderAction::Forward(Request::Increment()));
    let act = reader_step(&ReaderEvent::Frame(b"\"Decrement\"".to_vec()));
    assert_eq!(act, ReaderAction::Forward(Request::Decrement()));
    let act = reader_step(&ReaderEvent::Frame(b"\"Reset\"".to_vec()));
    assert_eq!(act, ReaderAction::Forward(Request::Reset()));
}

#[test]
fn malformed_frame_is_connection_local() {
    // A frame that decodes to no request is dropped, never escalated.
    let act = reader_step(&ReaderEvent::Frame(b"\"Launch\"".to_vec()));
    assert_eq!(act, ReaderAction::Ignore);
    let act = reader_step(&ReaderEvent::Frame(b"not json".to_vec()));
    assert_eq!(act, ReaderAction::Ignore);
}

#[test]
fn non_text_messages_are_ignored() {
    assert_eq!(reader_step(&ReaderEvent::NonText), ReaderAction::Ignore);
}

#[test]
fn reader_stops_on_closure_inactivity_and_cancellation() {
    assert_eq!(reader_step(&ReaderEvent::Closed), ReaderAction::Stop);
    assert_eq!(reader_step(&ReaderEvent::InactivityTimeout), ReaderAction::Stop);
    assert_eq!(reader_step(&ReaderEvent::Cancelled), ReaderAction::Stop);
}

#[test]
fn snapshot_encodes_frame_per_response() {
    let frames = encode_snapshot(&vec![Response::Counter(7), Response::Counter(-2)]);
    assert_eq!(frames.len(), 2);
    assert_eq!(frames[0], b"{\"Counter\":7}");
    assert_eq!(frames[1], b"{\"Counter\":-2}");
}

#[test]
fn empty_snapshot_encodes_no_frames() {
    let frames = encode_snapshot(&Vec::new());
    assert!(frames.is_empty());
}

#[test]
fn subsequence_check_agrees_with_order() {
    let a = [Response::Counter(1), Response::Counter(3)];
    let b = [
        Response::Counter(1),
        Response::Counter(2),
        Response::Counter(3),
        Response::Counter(0),
    ];
    assert!(subsequence_of(&a, &b));
    assert!(subsequence_of(&[], &b));
    assert!(subsequence_of(&b, &b));
    // Reordered or alien responses are not subsequences.
    assert!(!subsequence_of(&[Response::Counter(3), Response::Counter(1)], &b));
    assert!(!subsequence_of(&[Response::Counter(7)], &b));
    assert!(!subsequence_of(&a, &[]));
}

#[test]
fn observers_are_order_consistent() {
    // One session broadcasts an underlying response sequence; a prompt
    // connection sees all of it, a lagging one has intermediate
    // responses evicted from its view. Both views are in-order
    // subsequences of the same underlying sequence.
    let mut actor = SessionActor::new(SessionState { value: 0 });
    actor.handle_websocket();
    let mut history = Vec::new();
    for req in [
        Request::Increment(),
        Request::Increment(),
        Request::Increment(),
        Request::Reset(),
    ] {
        history.extend(actor.handle_request(req));
    }
    assert_eq!(
        history,
        vec![
            Response::Counter(1),
            Response::Counter(2),
            Response::Counter(3),
            Response::Counter(0),
        ]
    );
    let prompt_view = history.clone();
    let lagging_view = vec![Response::Counter(1), Response::Counter(0)];
    assert!(subsequence_of(&prompt_view, &history));
    assert!(subsequence_of(&lagging_view, &history));
}
