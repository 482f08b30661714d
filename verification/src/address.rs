//! Server addresses: absolute URLs with a host, and the joining of a command
//! name onto one.
//!
//! Parsing and reference resolution are the `url` crate's. An address is kept
//! as the text that the crate serializes it to, so that contracts can speak of
//! it as a sequence of characters.

use vstd::prelude::*;

use crate::error::ErrorKind;

verus! {

#[verifier::external_type_specification]
#[verifier::external_body]
pub struct ExParseError(url::ParseError);

/// What `url::Url::parse` makes of `input`: the serialization of the URL it
/// returns and whether that URL has a host, or `None` where it returns an
/// error.
pub uninterp spec fn url_parse(input: Seq<char>) -> Option<(Seq<char>, bool)>;

/// What `url::Url::join` makes of `reference` on the URL that `url::Url::parse`
/// returns for `base`: the serialization of the joined URL, or `None` where
/// either of the two returns an error.
pub uninterp spec fn url_join(base: Seq<char>, reference: Seq<char>) -> Option<Seq<char>>;

/// Calls `url::Url::parse` and hands out the parsed URL as plain values: its
/// serialization (`Url::as_str`) and whether it has a host (`Url::has_host`).
/// Trusted: the result is the one that `url_parse` names.
#[verifier::external_body]
fn parse_url(input: &str) -> (r: Result<(String, bool), url::ParseError>)
    ensures
        match r {
            Ok(parsed) => url_parse(input@) == Some((parsed.0@, parsed.1)),
            Err(_) => url_parse(input@) is None,
        },
{
    let url = url::Url::parse(input)?;
    Ok((url.as_str().to_string(), url.has_host()))
}

/// Calls `url::Url::join` with `reference` on the URL parsed from `base` and
/// hands out the serialization of the joined URL.
/// Trusted: the result is the one that `url_join` names.
#[verifier::external_body]
fn join_url(base: &str, reference: &str) -> (r: Result<String, url::ParseError>)
    ensures
        match r {
            Ok(joined) => url_join(base@, reference@) == Some(joined@),
            Err(_) => url_join(base@, reference@) is None,
        },
{
    let base = url::Url::parse(base)?;
    let joined = base.join(reference)?;
    Ok(joined.as_str().to_string())
}

/// The server address that `input` stands for: the serialization of the URL
/// parsed from it, provided that the URL has a host.
pub open spec fn address_of(input: Seq<char>) -> Option<Seq<char>> {
    match url_parse(input) {
        Some((text, has_host)) => if has_host {
            Some(text)
        } else {
            None
        },
        None => None,
    }
}

/// Reads a server address. Succeeds exactly when `input` parses as an
/// absolute URL that has a host.
pub fn parse_address(input: &str) -> (r: Result<String, ErrorKind>)
    ensures
        match r {
            Ok(text) => address_of(input@) == Some(text@),
            Err(e) => e == ErrorKind::InvalidUrl && address_of(input@) is None,
        },
{
    match parse_url(input) {
        Ok((text, has_host)) => {
            if has_host {
                Ok(text)
            } else {
                Err(ErrorKind::InvalidUrl)
            }
        },
        Err(_) => Err(ErrorKind::InvalidUrl),
    }
}

/// Joins a command name onto a server address by URL reference resolution.
/// Fails with `InvalidUrl` exactly when the join does.
pub fn resolve(base: &str, command: &str) -> (r: Result<String, ErrorKind>)
    ensures
        match r {
            Ok(url) => url_join(base@, command@) == Some(url@),
            Err(e) => e == ErrorKind::InvalidUrl && url_join(base@, command@) is None,
        },
{
    match join_url(base, command) {
        Ok(url) => Ok(url),
        Err(_) => Err(ErrorKind::InvalidUrl),
    }
}

} // verus!
