//! The error taxonomy of the client core.
//!
//! The exchange's own structured error envelope ([`Error`] around
//! [`DefaultError`]) is distinct from the client-side failures: a request
//! that cannot be built ([`RequestBuildError`]), credentials that cannot
//! sign ([`SignatureComputeError`]), and a response body that does not match
//! the expected schema ([`ExtractError::Deserialization`], which keeps the
//! raw bytes and the parser diagnostic instead of discarding them).

use vstd::prelude::*;

verus! {

/// The structured error value the exchange returns on a failure status.
#[derive(Clone, Debug)]
pub struct DefaultError {
    pub code: u32,
    pub message: String,
    pub description: Option<String>,
}

/// The envelope the exchange wraps a [`DefaultError`] in.
#[derive(Clone, Debug)]
pub struct Error {
    pub error: DefaultError,
}

/// A request that cannot be built; fatal, the request must not be sent.
#[derive(Clone, Copy, Debug, PartialEq, Eq, Structural)]
pub enum RequestBuildError {
    /// A path segment holds a character that would change the path shape.
    InvalidPathSegment,
    /// A query value holds a character that would change the query shape.
    InvalidQueryValue,
    /// A body field holds a character that the wire JSON cannot carry verbatim.
    InvalidBodyField,
    /// The request body is not valid UTF-8.
    NonUtf8Body,
    /// The configured base URL holds a query or fragment delimiter, or a
    /// relative path.
    InvalidBaseUrl,
}

/// Credentials that cannot sign: an empty private key is rejected when the
/// credentials are constructed, not at signing time.
#[derive(Clone, Copy, Debug, PartialEq, Eq, Structural)]
pub enum SignatureComputeError {
    EmptyPrivateKey,
}

/// Why a response body did not decode into the expected value.
#[derive(Clone, Debug)]
pub enum ExtractError {
    /// The exchange answered with a failure status and its structured error
    /// envelope.
    Api(DefaultError),
    /// The body does not match the expected schema: the raw bytes and the
    /// parser diagnostic are kept, never discarded.
    Deserialization { bytes: Vec<u8>, diagnostic: String },
}

impl ExtractError {
    /// The raw response bytes, when decoding failed; the exchange's error
    /// envelope carries no raw bytes.
    pub fn raw_bytes(&self) -> (r: Option<&Vec<u8>>)
        ensures
            self matches ExtractError::Deserialization { bytes, .. } ==> (r matches Some(b)
                && b@ == bytes@),
            self is Api ==> r is None,
    {
        match self {
            ExtractError::Deserialization { bytes, .. } => Some(bytes),
            ExtractError::Api(_) => None,
        }
    }
}

} // verus!
