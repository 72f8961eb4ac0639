//! Errors of the table client.
use vstd::prelude::*;
use crate::table::QuickTableResponse;

verus! {

/// Declares `reqwest::Error`, the HTTP client's error, so that a transport
/// failure can be carried in `QuickError::Request` unread.
#[verifier::external_type_specification]
#[verifier::external_body]
pub struct ExRequestError(reqwest::Error);

/// Declares `serde_json::Error`, the JSON codec's error, so that it can be
/// carried in `QuickError::Serialization` unread.
#[verifier::external_type_specification]
#[verifier::external_body]
pub struct ExJsonError(serde_json::Error);

#[derive(Debug)]
pub enum QuickError {
    /// The call to the remote endpoint failed.
    Request(reqwest::Error),
    /// Encoding a request or decoding a reply failed.
    Serialization(serde_json::Error),
    /// A failure detected locally, with an explanation.
    Message(String),
    /// The store answered with a failure acknowledgment.
    QuickTableError(QuickTableResponse),
}

impl QuickError {
    pub open spec fn is_message(&self, text: Seq<char>) -> bool {
        match self {
            QuickError::Message(m) => m@ == text,
            _ => false,
        }
    }
}

} // verus!
