use std::cell::Cell;

use echo::dispatch::{dispatch, dispatch_text, echo, Reply, Status};
use echo::error::ErrorKind;
use echo::json::{decode_text, encode_text};

fn decode_number(body: &[u8]) -> Result<u32, ErrorKind> {
    match body {
        [n] => Ok(u32::from(*n)),
        _ => Err(ErrorKind::DeserializationError),
    }
}

fn encode_number(n: &u32) -> Result<Vec<u8>, ErrorKind> {
    match u8::try_from(*n) {
        Ok(byte) => Ok(vec![byte]),
        Err(_) => Err(ErrorKind::SerializationError),
    }
}

fn double(offset: &u32, n: u32) -> Result<u32, ErrorKind> {
    if n == 0 {
        Err(ErrorKind::HandlerError)
    } else {
        Ok(2 * n + *offset)
    }
}

#[test]
fn status_codes() {
    assert_eq!(Status::Success.code(), 200);
    assert_eq!(Status::NotFound.code(), 404);
    assert_eq!(Status::UnprocessableEntity.code(), 422);
    assert_eq!(Status::InternalServerError.code(), 500);
}

#[test]
fn bare_reply_has_no_body() {
    let reply = Reply::bare(Status::NotFound);
    assert_eq!(reply.status, Status::NotFound);
    assert!(reply.body.is_empty());
}

#[test]
fn dispatch_serves_a_valid_request() {
    let reply = dispatch(&1, &[20], decode_number, double, encode_number);
    assert_eq!(reply.status, Status::Success);
    assert_eq!(reply.body, vec![41]);
}

#[test]
fn dispatch_refuses_a_malformed_body_without_running_the_handler() {
    let calls = Cell::new(0);
    let counting = |offset: &u32, n: u32| {
        calls.set(calls.get() + 1);
        double(offset, n)
    };
    let reply = dispatch(&1, &[1, 2], decode_number, &counting, encode_number);
    assert_eq!(reply.status, Status::UnprocessableEntity);
    assert_eq!(reply.status.code(), 422);
    assert!(reply.body.is_empty());
    assert_eq!(calls.get(), 0);
    let reply = dispatch(&1, &[5], decode_number, &counting, encode_number);
    assert_eq!(reply.status, Status::Success);
    assert_eq!(reply.body, vec![11]);
    assert_eq!(calls.get(), 1);
}

#[test]
fn dispatch_answers_a_failed_handler_with_a_server_error() {
    let reply = dispatch(&1, &[0], decode_number, double, encode_number);
    assert_eq!(reply.status, Status::InternalServerError);
    assert_eq!(reply.status.code(), 500);
    assert!(reply.body.is_empty());
}

#[test]
fn dispatch_answers_an_unencodable_response_with_a_server_error() {
    let reply = dispatch(&1, &[200], decode_number, double, encode_number);
    assert_eq!(reply.status, Status::InternalServerError);
    assert!(reply.body.is_empty());
}

#[test]
fn a_malformed_body_does_not_reach_later_requests() {
    let first = dispatch(&0, &[], decode_number, double, encode_number);
    let second = dispatch(&0, &[3], decode_number, double, encode_number);
    assert_eq!(first.status, Status::UnprocessableEntity);
    assert_eq!(second.status, Status::Success);
    assert_eq!(second.body, vec![6]);
}

#[test]
fn a_failed_handler_does_not_reach_later_requests() {
    let first = dispatch(&0, &[0], decode_number, double, encode_number);
    let second = dispatch(&0, &[3], decode_number, double, encode_number);
    assert_eq!(first.status, Status::InternalServerError);
    assert_eq!(second.status, Status::Success);
    assert_eq!(second.body, vec![6]);
}

#[test]
fn echo_returns_its_request() {
    assert_eq!(echo(&(), String::from("hello")), Ok(String::from("hello")));
    assert_eq!(echo(&7, String::new()), Ok(String::new()));
}

#[test]
fn dispatch_text_echoes_an_encoded_string() {
    let reply = dispatch_text(&(), b"\"hello\"", echo::<()>);
    assert_eq!(reply.status, Status::Success);
    assert_eq!(reply.body, b"\"hello\"".to_vec());
}

#[test]
fn dispatch_text_encodes_the_response_anew() {
    let reply = dispatch_text(&(), b" \"\\u0041\" ", echo::<()>);
    assert_eq!(reply.status, Status::Success);
    assert_eq!(reply.body, b"\"A\"".to_vec());
}

#[test]
fn dispatch_text_refuses_what_is_no_string() {
    let reply = dispatch_text(&(), b"hello", echo::<()>);
    assert_eq!(reply.status, Status::UnprocessableEntity);
    assert!(reply.body.is_empty());
    let reply = dispatch_text(&(), b"", echo::<()>);
    assert_eq!(reply.status, Status::UnprocessableEntity);
}

#[test]
fn dispatch_text_answers_a_failed_handler_with_a_server_error() {
    let refuse = |_: &(), _: String| -> Result<String, ErrorKind> { Err(ErrorKind::HandlerError) };
    let reply = dispatch_text(&(), b"\"hello\"", refuse);
    assert_eq!(reply.status, Status::InternalServerError);
    assert!(reply.body.is_empty());
}

#[test]
fn dispatch_text_is_dispatch_with_the_text_codec() {
    let shout = |suffix: &String, text: String| -> Result<String, ErrorKind> {
        Ok(text.to_uppercase() + suffix)
    };
    let state = String::from("!");
    let by_text = dispatch_text(&state, b"\"hello\"", shout);
    let by_hand = dispatch(&state, b"\"hello\"", decode_text, shout, |s: &String| encode_text(s));
    assert_eq!(by_text.status, by_hand.status);
    assert_eq!(by_text.body, by_hand.body);
    assert_eq!(by_text.body, b"\"HELLO!\"".to_vec());
}
