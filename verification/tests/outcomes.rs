//! Classification of every reply a request can meet, and the error
//! taxonomy it is mapped into.

use rustemon::ErrorKind;
use rustemon::RawReply;
use rustemon::RequestError;
use rustemon::ResponseError;
use rustemon::request::interpret_reply;

const PLACEHOLDER: &str = "Unknown error: Could not process request";

#[test]
fn remote_error_extracts_the_message() {
    let body = "{\"error\":{\"message\":\"Bad query\"}}".to_string();
    let err = RequestError::new(body, 400);
    assert_eq!(err.message, "Bad query");
    assert_eq!(err.status, 400);
}

#[test]
fn unparseable_body_yields_the_placeholder() {
    let err = RequestError::new("<html>gateway timeout</html>".to_string(), 504);
    assert_eq!(err.message, PLACEHOLDER);
    assert_eq!(err.status, 504);
}

#[test]
fn json_without_the_field_yields_the_placeholder() {
    let err = RequestError::new("{\"error\":{}}".to_string(), 404);
    assert_eq!(err.message, PLACEHOLDER);
    let err = RequestError::new("{\"error\":{\"message\":42}}".to_string(), 404);
    assert_eq!(err.message, PLACEHOLDER);
}

#[test]
fn request_error_converts_to_remote() {
    let err = ResponseError::from(RequestError::new("{}".to_string(), 429));
    assert_eq!(err.kind, ErrorKind::Remote);
    assert_eq!(err.code, Some(429));
    assert_eq!(err.message, PLACEHOLDER);
}

#[test]
fn success_reply_hands_the_body_on() {
    let out = interpret_reply(RawReply::Delivered(200, "{\"data\":[]}".to_string()));
    assert_eq!(out.unwrap(), "{\"data\":[]}");
}

#[test]
fn documented_status_yields_remote_with_message_and_code() {
    let body = "{\"error\":{\"message\":\"X\"}}".to_string();
    let err = interpret_reply(RawReply::Delivered(404, body)).unwrap_err();
    assert_eq!(err.kind, ErrorKind::Remote);
    assert_eq!(err.message, "X");
    assert_eq!(err.code, Some(404));
}

#[test]
fn documented_status_with_garbage_body_yields_placeholder() {
    let err = interpret_reply(RawReply::Delivered(500, "not json".to_string())).unwrap_err();
    assert_eq!(err.kind, ErrorKind::Remote);
    assert_eq!(err.message, PLACEHOLDER);
    assert_eq!(err.code, Some(500));
}

#[test]
fn undocumented_status_yields_unclassified_without_reading_the_body() {
    let body = "{\"error\":{\"message\":\"ignored\"}}".to_string();
    let err = interpret_reply(RawReply::Delivered(303, body)).unwrap_err();
    assert_eq!(err.kind, ErrorKind::Unclassified);
    assert_eq!(err.message, "Unclassified error: unexpected status code");
    assert_eq!(err.code, Some(303));
}

#[test]
fn transport_failure_yields_transport_with_no_code() {
    let err = interpret_reply(RawReply::Failed("connection refused".to_string())).unwrap_err();
    assert_eq!(err.kind, ErrorKind::Transport);
    assert_eq!(err.message, "connection refused");
    assert_eq!(err.code, None);
}

#[test]
fn equal_replies_are_classified_alike() {
    let a = interpret_reply(RawReply::Delivered(200, "{\"data\":[1,2]}".to_string()));
    let b = interpret_reply(RawReply::Delivered(200, "{\"data\":[1,2]}".to_string()));
    assert_eq!(a.unwrap(), b.unwrap());
    let x = interpret_reply(RawReply::Delivered(400, "{\"error\":{\"message\":\"no\"}}".to_string()))
        .unwrap_err();
    let y = interpret_reply(RawReply::Delivered(400, "{\"error\":{\"message\":\"no\"}}".to_string()))
        .unwrap_err();
    assert_eq!(x.kind, y.kind);
    assert_eq!(x.message, y.message);
    assert_eq!(x.code, y.code);
}

#[test]
fn decode_and_input_errors_carry_their_description() {
    let err = ResponseError::decode("missing field `data`".to_string());
    assert_eq!(err.kind, ErrorKind::Decode);
    assert_eq!(err.message, "missing field `data`");
    assert_eq!(err.code, None);
    let err = ResponseError::invalid_input("query holds a control character".to_string());
    assert_eq!(err.kind, ErrorKind::InvalidInput);
    assert_eq!(err.code, None);
}

#[test]
fn describe_names_message_and_code() {
    let err = ResponseError::from(RequestError::new("{\"error\":{\"message\":\"X\"}}".to_string(), 404));
    assert_eq!(err.describe(), "Error: X, Code: 404");
    let err = ResponseError::transport("timed out".to_string());
    assert_eq!(err.describe(), "Error: timed out, Code: none");
}
