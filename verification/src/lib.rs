//! A typed command layer over HTTP.
//!
//! A client turns a command name and an encoded request into an HTTP request
//! for a known server; a server binds command names to handlers and turns
//! each incoming body into a reply by decoding it, running the handler and
//! encoding what the handler returned. The transport itself is left to the
//! caller: this crate decides what is sent and what a received outcome means.

pub mod address;
pub mod client;
pub mod dispatch;
pub mod error;
pub mod json;
pub mod server;
pub mod workers;

pub use error::ErrorKind;
