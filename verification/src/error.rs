//! The error type shared by every fallible operation of the crate.

use vstd::prelude::*;

verus! {

/// The underlying error of the token signing library.
#[verifier::external_type_specification]
#[verifier::external_body]
pub struct ExJwtError(jsonwebtoken::errors::Error);

/// The underlying error of the JSON parser.
#[verifier::external_type_specification]
#[verifier::external_body]
pub struct ExJsonError(serde_json::Error);

/// Everything that can go wrong while minting a token or interpreting a
/// response of the notary service.
#[derive(Debug)]
pub enum AppleCodesignError {
    /// No conventional location holds the private key of the requested key id.
    AppStoreConnectApiKeyNotFound,
    /// The key material was rejected, or signing with it failed.
    JsonWebToken(jsonwebtoken::errors::Error),
    /// A response body is not a JSON document.
    SerdeJson(serde_json::Error),
    /// A response body is a JSON document of an unexpected shape.
    NotarizeResponseMalformed,
    /// The system clock reads a time before the Unix epoch.
    SystemClockBeforeUnixEpoch,
    /// The expiry of the requested token does not fit in 64 bits.
    TokenLifetimeTooLong,
    /// The submission is still being processed.
    NotarizeIncomplete,
    /// The submission was found invalid.
    NotarizeInvalid,
    /// The status of the submission is none that is known here.
    NotarizeUnknownStatus,
    /// The submission was rejected, with a status code and a message.
    NotarizeRejected(i64, String),
    /// The service answered a new submission with a status other than 200.
    NotarizeServerError,
}

impl AppleCodesignError {
    /// The submission may yet be accepted: looking again later is worth it.
    pub open spec fn is_retry_signal(self) -> bool {
        self is NotarizeIncomplete
    }

    /// The submission has failed for good: looking again will show the same.
    pub open spec fn is_terminal_failure(self) -> bool {
        self is NotarizeInvalid || self is NotarizeRejected || self is NotarizeUnknownStatus
    }
}

} // verus!
