use paperspace::codec::{encode_response, parse_request};
use paperspace::domain::{Request, Response};

#[test]
fn parses_increment_frame() {
    assert_eq!(parse_request(b"\"Increment\""), Some(Request::Increment()));
}

#[test]
fn parses_decrement_frame() {
    assert_eq!(parse_request(b"\"Decrement\""), Some(Request::Decrement()));
}

#[test]
fn parses_reset_frame() {
    assert_eq!(parse_request(b"\"Reset\""), Some(Request::Reset()));
}

#[test]
fn rejects_unquoted_name() {
    assert_eq!(parse_request(b"Increment"), None);
}

#[test]
fn rejects_wrong_case() {
    assert_eq!(parse_request(b"\"increment\""), None);
}

#[test]
fn rejects_empty_frame() {
    assert_eq!(parse_request(b""), None);
}

#[test]
fn rejects_object_frame() {
    assert_eq!(parse_request(b"{\"Increment\":null}"), None);
}

#[test]
fn rejects_frame_with_trailing_bytes() {
    assert_eq!(parse_request(b"\"Reset\" "), None);
}

#[test]
fn encodes_zero() {
    assert_eq!(encode_response(&Response::Counter(0)), b"{\"Counter\":0}");
}

#[test]
fn encodes_positive_value() {
    assert_eq!(encode_response(&Response::Counter(42)), b"{\"Counter\":42}");
}

#[test]
fn encodes_negative_value() {
    assert_eq!(encode_response(&Response::Counter(-5)), b"{\"Counter\":-5}");
}

#[test]
fn encodes_extreme_values() {
    assert_eq!(
        encode_response(&Response::Counter(i64::MAX)),
        b"{\"Counter\":9223372036854775807}"
    );
    assert_eq!(
        encode_response(&Response::Counter(i64::MIN)),
        b"{\"Counter\":-9223372036854775808}"
    );
}

#[test]
fn response_frames_match_ecosystem_json() {
    // The frames agree with an externally-tagged JSON encoding of the
    // same values, as produced by serde_json.
    for v in [0i64, 1, -1, 37, -9000, i64::MAX, i64::MIN] {
        let mut map = serde_json::Map::new();
        map.insert("Counter".to_string(), serde_json::Value::from(v));
        let expected = serde_json::to_string(&serde_json::Value::Object(map)).unwrap();
        let frame = encode_response(&Response::Counter(v));
        assert_eq!(String::from_utf8(frame).unwrap(), expected);
    }
}

#[test]
fn request_frames_round_trip_through_ecosystem_json() {
    // The three request frames are exactly the JSON strings of the
    // variant names.
    for (name, req) in [
        ("Increment", Request::Increment()),
        ("Decrement", Request::Decrement()),
        ("Reset", Request::Reset()),
    ] {
        let frame = serde_json::to_string(&serde_json::Value::String(name.to_string())).unwrap();
        assert_eq!(parse_request(frame.as_bytes()), Some(req));
    }
}
