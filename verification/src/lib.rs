//! Sans-I/O client logic for the App Store Connect notary API.
//!
//! The crate mints the signed bearer tokens that the API expects and
//! describes the HTTP exchanges of the submission lifecycle as plain values:
//! it builds each request and interprets each response, and leaves sending
//! and receiving to the caller.
//!
//! - [`token`] mints tokens for a signing identity.
//! - [`key_search`] decides where the private key of a key id is looked for.
//! - [`notary`] holds the documents of the notary protocol and their codecs.
//! - [`client`] builds the requests of the three operations (create a
//!   submission, ask for its status, fetch its log) and reads the answers.
//! - [`http`], [`json`] and [`error`] hold what the others share.

pub mod client;
pub mod error;
pub mod http;
pub mod json;
pub mod key_search;
pub mod notary;
pub mod token;

pub use client::{
    AppStoreConnectClient, DEFAULT_TOKEN_LIFETIME, ITUNES_PRODUCER_SERVICE_URL,
    NOTARY_SUBMISSIONS_URL,
};
pub use error::AppleCodesignError;
pub use http::{HttpMethod, HttpRequest};
pub use key_search::{ApiKeySearch, KeyLocation, KeySearchRoot};
pub use notary::{
    NewSubmissionRequest, NewSubmissionRequestNotification, NewSubmissionResponse,
    NewSubmissionResponseData, NewSubmissionResponseDataAttributes, SubmissionLogResponse,
    SubmissionLogResponseData, SubmissionLogResponseDataAttributes, SubmissionResponse,
    SubmissionResponseData, SubmissionResponseDataAttributes, SubmissionResponseStatus,
};
pub use token::{
    AppStoreConnectToken, ConnectTokenEncoder, ConnectTokenRequest, TokenAlgorithm,
    TokenContents, TokenHeader, TOKEN_AUDIENCE,
};
