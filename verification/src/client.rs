//! The client side: one typed exchange against a known server.
//!
//! An exchange has three steps. `KnownUrlClient::request` decides what is
//! sent: the method, the destination and the body. The caller's transport
//! sends it and reports a `Delivery`. `KnownUrlClient::receive` decides what
//! that delivery means.

use vstd::prelude::*;

use crate::address::{address_of, parse_address, resolve, url_join};
use crate::error::ErrorKind;

verus! {

/// An HTTP request method.
#[derive(Clone, Copy, Debug, PartialEq, Eq, Structural)]
pub enum Method {
    Get,
    Post,
    Put,
    Delete,
    Head,
    Options,
    Connect,
    Patch,
    Trace,
}

impl Method {
    /// The method's token as it stands in a request line.
    pub fn name(&self) -> (r: &'static str)
        ensures
            r@ == self.spec_name(),
    {
        match self {
            Method::Get => "GET",
            Method::Post => "POST",
            Method::Put => "PUT",
            Method::Delete => "DELETE",
            Method::Head => "HEAD",
            Method::Options => "OPTIONS",
            Method::Connect => "CONNECT",
            Method::Patch => "PATCH",
            Method::Trace => "TRACE",
        }
    }

    /// The method's token, as a sequence of characters.
    pub open spec fn spec_name(&self) -> Seq<char> {
        match self {
            Method::Get => "GET"@,
            Method::Post => "POST"@,
            Method::Put => "PUT"@,
            Method::Delete => "DELETE"@,
            Method::Head => "HEAD"@,
            Method::Options => "OPTIONS"@,
            Method::Connect => "CONNECT"@,
            Method::Patch => "PATCH"@,
            Method::Trace => "TRACE"@,
        }
    }
}

/// The media type that every body of this layer is labelled with.
pub fn content_type() -> (r: &'static str)
    ensures
        r@ == "application/json"@,
{
    "application/json"
}

/// What a client asks its transport to send.
#[derive(Debug)]
pub struct Request {
    /// The request method.
    pub method: Method,
    /// The destination: the command name joined onto the server address.
    pub url: String,
    /// The encoded request value.
    pub body: Vec<u8>,
    /// The longest that the transport may wait for the response, in
    /// milliseconds; `None` for no bound.
    pub timeout_ms: Option<u64>,
}

/// A request with its text and bytes taken as sequences.
pub struct RequestView {
    pub method: Method,
    pub url: Seq<char>,
    pub body: Seq<u8>,
    pub timeout_ms: Option<u64>,
}

impl View for Request {
    type V = RequestView;

    open spec fn view(&self) -> RequestView {
        RequestView {
            method: self.method,
            url: self.url@,
            body: self.body@,
            timeout_ms: self.timeout_ms,
        }
    }
}

/// What a transport reports of one exchange.
#[derive(Debug)]
pub enum Delivery {
    /// The full response arrived; this is its body.
    Completed(Vec<u8>),
    /// The connection could not be established, or the exchange was
    /// interrupted.
    Failed,
    /// The response did not arrive within the request's bound.
    TimedOut,
}

/// A client of one server, whose address is fixed when the client is made.
#[derive(Debug)]
pub struct KnownUrlClient {
    server_url: String,
    timeout_ms: Option<u64>,
}

impl KnownUrlClient {
    /// The server address, as the text of an absolute URL.
    pub closed spec fn address(&self) -> Seq<char> {
        self.server_url@
    }

    /// The bound on the wait for a response, in milliseconds.
    pub closed spec fn time_limit(&self) -> Option<u64> {
        self.timeout_ms
    }

    /// What `request` returns, as a function of the client and the arguments.
    /// A command that does not join onto the address comes first, then a
    /// payload that could not be encoded.
    pub open spec fn spec_request(
        &self,
        method: Method,
        command: Seq<char>,
        payload: Result<Seq<u8>, ErrorKind>,
    ) -> Result<RequestView, ErrorKind> {
        match url_join(self.address(), command) {
            None => Err(ErrorKind::InvalidUrl),
            Some(url) => match payload {
                Err(e) => Err(e),
                Ok(body) => Ok(
                    RequestView { method, url, body, timeout_ms: self.time_limit() },
                ),
            },
        }
    }

    /// Makes a client of the server at `server_url`, with no bound on the
    /// wait for a response. Fails with `InvalidUrl` exactly when `server_url`
    /// is not an absolute URL with a host.
    pub fn new(server_url: &str) -> (r: Result<KnownUrlClient, ErrorKind>)
        ensures
            match r {
                Ok(client) => address_of(server_url@) == Some(client.address())
                    && client.time_limit() is None,
                Err(e) => e == ErrorKind::InvalidUrl && address_of(server_url@) is None,
            },
    {
        match parse_address(server_url) {
            Ok(text) => Ok(KnownUrlClient { server_url: text, timeout_ms: None }),
            Err(e) => Err(e),
        }
    }

    /// The same client with the wait for each response bounded by `millis`
    /// milliseconds.
    pub fn with_timeout(self, millis: u64) -> (r: KnownUrlClient)
        ensures
            r.address() == self.address(),
            r.time_limit() == Some(millis),
    {
        KnownUrlClient { server_url: self.server_url, timeout_ms: Some(millis) }
    }

    /// The server address.
    pub fn server_url(&self) -> (r: &str)
        ensures
            r@ == self.address(),
    {
        self.server_url.as_str()
    }

    /// The bound on the wait for a response, in milliseconds.
    pub fn timeout(&self) -> (r: Option<u64>)
        ensures
            r == self.time_limit(),
    {
        self.timeout_ms
    }

    /// Prepares the exchange for `command`: the destination is the command
    /// name joined onto the server address, the body is the encoded request.
    /// `payload` is the outcome of encoding the request value. Fails with
    /// `InvalidUrl` where the join fails, else with the payload's own error.
    pub fn request(&self, method: Method, command: &str, payload: Result<Vec<u8>, ErrorKind>) -> (r:
        Result<Request, ErrorKind>)
        ensures
            view_request(r) == self.spec_request(method, command@, view_payload(payload)),
    {
        let url = match resolve(self.server_url.as_str(), command) {
            Ok(url) => url,
            Err(e) => {
                return Err(e);
            },
        };
        match payload {
            Ok(body) => Ok(Request { method, url, body, timeout_ms: self.timeout_ms }),
            Err(e) => Err(e),
        }
    }

    /// `request` with the method `Post`.
    pub fn post(&self, command: &str, payload: Result<Vec<u8>, ErrorKind>) -> (r: Result<
        Request,
        ErrorKind,
    >)
        ensures
            view_request(r) == self.spec_request(Method::Post, command@, view_payload(payload)),
    {
        self.request(Method::Post, command, payload)
    }

    /// Reads what the transport reported: the response body where the
    /// exchange completed, `TransportError` where it failed, `Timeout` where
    /// it ran out of time.
    pub fn receive(delivery: Delivery) -> (r: Result<Vec<u8>, ErrorKind>)
        ensures
            match delivery {
                Delivery::Completed(body) => r == Ok::<Vec<u8>, ErrorKind>(body),
                Delivery::Failed => r == Err::<Vec<u8>, ErrorKind>(ErrorKind::TransportError),
                Delivery::TimedOut => r == Err::<Vec<u8>, ErrorKind>(ErrorKind::Timeout),
            },
    {
        match delivery {
            Delivery::Completed(body) => Ok(body),
            Delivery::Failed => Err(ErrorKind::TransportError),
            Delivery::TimedOut => Err(ErrorKind::Timeout),
        }
    }
}

/// The outcome of preparing an exchange, with the request taken by its view.
pub open spec fn view_request(r: Result<Request, ErrorKind>) -> Result<RequestView, ErrorKind> {
    match r {
        Ok(request) => Ok(request@),
        Err(e) => Err(e),
    }
}

/// An encoding outcome with its bytes taken as a sequence.
pub open spec fn view_payload(payload: Result<Vec<u8>, ErrorKind>) -> Result<Seq<u8>, ErrorKind> {
    match payload {
        Ok(body) => Ok(body@),
        Err(e) => Err(e),
    }
}

} // verus!
