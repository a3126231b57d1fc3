use vstd::prelude::*;

verus! {

/// Unified error type for credential acquisition.
///
/// One enum carries every failure the flows can surface: missing
/// configuration fields, transport failures, remote rejection, malformed
/// endpoint URLs, and token responses that do not decode.
#[derive(Debug)]
pub enum ArcError {
    /// One or more required configuration fields were never provided; the
    /// payload lists every missing field name, not just the first.
    UserBuildError { value: Vec<String> },
    /// Transport-level failure on an HTTP call.
    HttpError,
    /// Failure reading operator input.
    Io,
    /// The token endpoint was reachable but rejected the request with a
    /// non-success status.
    AuthError,
    /// An endpoint string is not a well-formed URL.
    ParseError,
    /// The endpoint answered with a success status, but the body does not
    /// decode into a token response.
    DecodeError,
}

} // verus!
