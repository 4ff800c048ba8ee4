//! A verified client library for a MediaWiki-style JSON query API.
//!
//! The library builds the query parameters for each operation, renders the
//! language-templated endpoint, hands the request to a pluggable transport,
//! and extracts typed results (title lists, language pairs) out of the
//! JSON envelope that comes back. Envelope navigation is strict: a missing
//! or ill-shaped path fails the call. Per-record field extraction is
//! lenient: a record without the wanted string field is dropped and the
//! rest are kept. Geographic queries are validated against their domain
//! bounds before any transport call.

pub mod json;
pub mod template;
pub mod text;
pub mod wikipedia;

pub use crate::wikipedia::Wikipedia;

use vstd::prelude::*;

verus! {

/// The errors a client operation can end with.
#[derive(Debug, PartialEq, Eq)]
pub enum Error {
    /// An input was outside its allowed range; the field names the parameter.
    InvalidParameter(String),
    /// The transport could not complete the request.
    Network,
    /// The request could not be encoded or addressed.
    Encoding,
    /// The response body was not valid JSON text.
    Decode,
    /// The JSON envelope lacked the expected object or array structure.
    MissingPath,
}

/// The pluggable HTTP transport: anything that can perform a GET against
/// `base_url` with the given query parameters and return the response body.
///
/// An implementation reports its own failures as `Error::Network` or
/// `Error::Encoding`; the remaining variants are produced by the client
/// itself, after the transport has returned.
pub trait AsyncHttpClient {
    /// Run an HTTP request with the given url and args, returning
    /// the response body as a string.
    fn get(&self, base_url: &str, args: &Vec<(String, String)>) -> (r: Result<String, Error>)
        ensures
            r matches Err(e) ==> e is Network || e is Encoding,
    ;
}

} // verus!
