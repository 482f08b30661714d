//! The server side of one request: decode the body, run the handler on the
//! shared state, encode what it returned.

use vstd::prelude::*;

use crate::error::ErrorKind;
use crate::json::{decode_text, encode_text, json_of_text, text_of_json};

verus! {

/// The status of a reply.
#[derive(Clone, Copy, Debug, PartialEq, Eq, Structural)]
pub enum Status {
    /// The handler ran and its response is in the body.
    Success,
    /// No handler is bound to the path.
    NotFound,
    /// The body is not an encoding of the handler's request type.
    UnprocessableEntity,
    /// The handler failed, or its response could not be encoded.
    InternalServerError,
}

impl Status {
    /// The HTTP status code.
    pub open spec fn spec_code(&self) -> u16 {
        match self {
            Status::Success => 200,
            Status::NotFound => 404,
            Status::UnprocessableEntity => 422,
            Status::InternalServerError => 500,
        }
    }

    /// Whether the code tells of success.
    pub open spec fn is_success(&self) -> bool {
        200 <= self.spec_code() < 300
    }

    /// Whether the code puts the fault on the request.
    pub open spec fn is_client_error(&self) -> bool {
        400 <= self.spec_code() < 500
    }

    /// Whether the code puts the fault on the server.
    pub open spec fn is_server_error(&self) -> bool {
        500 <= self.spec_code() < 600
    }

    /// The HTTP status code.
    pub fn code(&self) -> (r: u16)
        ensures
            r == self.spec_code(),
    {
        match self {
            Status::Success => 200,
            Status::NotFound => 404,
            Status::UnprocessableEntity => 422,
            Status::InternalServerError => 500,
        }
    }
}

/// What the server answers to one request.
#[derive(Debug)]
pub struct Reply {
    /// The status of the reply.
    pub status: Status,
    /// The encoded response; empty unless the status is `Success`.
    pub body: Vec<u8>,
}

impl Reply {
    /// Whether this is the reply without a body that carries `status`.
    pub open spec fn is_bare(&self, status: Status) -> bool {
        self.status == status && self.body@.len() == 0
    }

    /// The reply without a body that carries `status`.
    pub fn bare(status: Status) -> (r: Reply)
        ensures
            r.is_bare(status),
    {
        Reply { status, body: Vec::new() }
    }
}

/// Whether `reply` answers `body` under a handler and its codec: some run of
/// `decode` on the body, then of `handler` on the state and the decoded
/// request, then of `encode` on the response leads to it. An undecodable body
/// is answered with `UnprocessableEntity` whatever the handler would do; a
/// failed handler or an unencodable response with `InternalServerError`.
pub open spec fn dispatched<S, Q, R, F, D, H, E>(
    state: &S,
    body: &[u8],
    decode: D,
    handler: H,
    encode: E,
    reply: Reply,
) -> bool where
    D: Fn(&[u8]) -> Result<Q, ErrorKind>,
    H: Fn(&S, Q) -> Result<R, F>,
    E: Fn(&R) -> Result<Vec<u8>, ErrorKind>,
 {
    exists|decoded: Result<Q, ErrorKind>|
        decode.ensures((body,), decoded) && match decoded {
            Err(_) => reply.is_bare(Status::UnprocessableEntity),
            Ok(request) => exists|handled: Result<R, F>|
                handler.ensures((state, request), handled) && match handled {
                    Err(_) => reply.is_bare(Status::InternalServerError),
                    Ok(response) => exists|encoded: Result<Vec<u8>, ErrorKind>|
                        encode.ensures((&response,), encoded) && match encoded {
                            Err(_) => reply.is_bare(Status::InternalServerError),
                            Ok(bytes) => reply.status == Status::Success && reply.body@ == bytes@,
                        },
                },
        }
}

/// Answers one request: decodes `body`, runs `handler` on the shared state
/// and the decoded request, and encodes what it returned. The handler is not
/// run on a body that does not decode.
pub fn dispatch<S, Q, R, F, D, H, E>(
    state: &S,
    body: &[u8],
    decode: D,
    handler: H,
    encode: E,
) -> (reply: Reply) where
    D: Fn(&[u8]) -> Result<Q, ErrorKind>,
    H: Fn(&S, Q) -> Result<R, F>,
    E: Fn(&R) -> Result<Vec<u8>, ErrorKind>,

    requires
        decode.requires((body,)),
        forall|request: Q|
            decode.ensures((body,), Ok(request)) ==> handler.requires((state, request)),
        forall|request: Q, response: R|
            decode.ensures((body,), Ok(request)) && handler.ensures(
                (state, request),
                Ok(response),
            ) ==> encode.requires((&response,)),
    ensures
        dispatched(state, body, decode, handler, encode, reply),
{
    let decoded = decode(body);
    let request = match decoded {
        Ok(request) => request,
        Err(_) => {
            return Reply::bare(Status::UnprocessableEntity);
        },
    };
    let handled = handler(state, request);
    let response = match handled {
        Ok(response) => response,
        Err(_) => {
            return Reply::bare(Status::InternalServerError);
        },
    };
    let encoded = encode(&response);
    match encoded {
        Ok(bytes) => Reply { status: Status::Success, body: bytes },
        Err(_) => Reply::bare(Status::InternalServerError),
    }
}

/// Whether `reply` answers `body` under a handler of strings, with the
/// crate's own wire format of text as the codec.
pub open spec fn text_dispatched<S, F, H>(state: &S, body: Seq<u8>, handler: H, reply: Reply) -> bool where
    H: Fn(&S, String) -> Result<String, F>,
 {
    match text_of_json(body) {
        None => reply.is_bare(Status::UnprocessableEntity),
        Some(text) => exists|request: String, handled: Result<String, F>|
            request@ == text && handler.ensures((state, request), handled) && match handled {
                Err(_) => reply.is_bare(Status::InternalServerError),
                Ok(response) => match json_of_text(response@) {
                    None => reply.is_bare(Status::InternalServerError),
                    Some(bytes) => reply.status == Status::Success && reply.body@ == bytes,
                },
            },
    }
}

/// `dispatch` for a handler from string to string, decoding and encoding
/// with the crate's own wire format of text.
pub fn dispatch_text<S, F, H>(state: &S, body: &[u8], handler: H) -> (reply: Reply) where
    H: Fn(&S, String) -> Result<String, F>,

    requires
        forall|request: String| handler.requires((state, request)),
    ensures
        text_dispatched(state, body@, handler, reply),
{
    let encode = |response: &String| -> (r: Result<Vec<u8>, ErrorKind>)
        ensures
            match r {
                Ok(bytes) => json_of_text(response@) == Some(bytes@),
                Err(_) => json_of_text(response@) is None,
            },
        { encode_text(response.as_str()) };
    dispatch(state, body, decode_text, handler, encode)
}

/// The demonstration handler: answers every request with the request itself.
pub fn echo<S>(state: &S, request: String) -> (r: Result<String, ErrorKind>)
    ensures
        r == Ok::<String, ErrorKind>(request),
{
    Ok(request)
}

/// A body that does not decode is answered with a client error and no body,
/// whatever the handler is; and a request that decodes, is handled and
/// encoded is served with the encoded response, whether or not such a body
/// was answered before it.
pub proof fn lemma_undecodable_body_is_refused_and_later_request_served<S, Q, R, F, D, H, E>(
    state: &S,
    malformed: &[u8],
    valid: &[u8],
    decode: D,
    handler: H,
    encode: E,
    first: Reply,
    second: Reply,
    request: Q,
    response: R,
    bytes: Vec<u8>,
) where
    D: Fn(&[u8]) -> Result<Q, ErrorKind>,
    H: Fn(&S, Q) -> Result<R, F>,
    E: Fn(&R) -> Result<Vec<u8>, ErrorKind>,

    requires
        dispatched(state, malformed, decode, handler, encode, first),
        dispatched(state, valid, decode, handler, encode, second),
        forall|decoded: Result<Q, ErrorKind>|
            decode.ensures((malformed,), decoded) ==> decoded is Err,
        forall|decoded: Result<Q, ErrorKind>|
            decode.ensures((valid,), decoded) ==> decoded == Ok::<Q, ErrorKind>(request),
        forall|handled: Result<R, F>|
            handler.ensures((state, request), handled) ==> handled == Ok::<R, F>(response),
        forall|encoded: Result<Vec<u8>, ErrorKind>|
            encode.ensures((&response,), encoded) ==> encoded == Ok::<Vec<u8>, ErrorKind>(bytes),
    ensures
        first.status.is_client_error(),
        first.body@.len() == 0,
        second.status == Status::Success,
        second.body@ == bytes@,
{
}

/// A request on which the handler fails is answered with a server error and
/// no body; and a request that decodes, is handled and encoded is served with
/// the encoded response, whether or not the handler failed before it.
pub proof fn lemma_handler_failure_is_isolated<S, Q, R, F, D, H, E>(
    state: &S,
    failing: &[u8],
    valid: &[u8],
    decode: D,
    handler: H,
    encode: E,
    first: Reply,
    second: Reply,
    rejected: Q,
    request: Q,
    response: R,
    bytes: Vec<u8>,
) where
    D: Fn(&[u8]) -> Result<Q, ErrorKind>,
    H: Fn(&S, Q) -> Result<R, F>,
    E: Fn(&R) -> Result<Vec<u8>, ErrorKind>,

    requires
        dispatched(state, failing, decode, handler, encode, first),
        dispatched(state, valid, decode, handler, encode, second),
        forall|decoded: Result<Q, ErrorKind>|
            decode.ensures((failing,), decoded) ==> decoded == Ok::<Q, ErrorKind>(rejected),
        forall|handled: Result<R, F>| handler.ensures((state, rejected), handled) ==> handled is Err,
        forall|decoded: Result<Q, ErrorKind>|
            decode.ensures((valid,), decoded) ==> decoded == Ok::<Q, ErrorKind>(request),
        forall|handled: Result<R, F>|
            handler.ensures((state, request), handled) ==> handled == Ok::<R, F>(response),
        forall|encoded: Result<Vec<u8>, ErrorKind>|
            encode.ensures((&response,), encoded) ==> encoded == Ok::<Vec<u8>, ErrorKind>(bytes),
    ensures
        first.status.is_server_error(),
        first.body@.len() == 0,
        second.status == Status::Success,
        second.body@ == bytes@,
{
}

/// Under a handler that answers every request with the request itself, the
/// reply to an encoded string is that string encoded again.
pub proof fn lemma_echo_reply_encodes_request<S, F, H>(
    state: &S,
    body: Seq<u8>,
    handler: H,
    reply: Reply,
    request: Seq<char>,
) where H: Fn(&S, String) -> Result<String, F>
    requires
        text_dispatched(state, body, handler, reply),
        text_of_json(body) == Some(request),
        forall|s: &S, asked: String, handled: Result<String, F>|
            handler.ensures((s, asked), handled) ==> handled == Ok::<String, F>(asked),
    ensures
        match json_of_text(request) {
            Some(bytes) => reply.status == Status::Success && reply.body@ == bytes,
            None => reply.is_bare(Status::InternalServerError),
        },
{
}

} // verus!
