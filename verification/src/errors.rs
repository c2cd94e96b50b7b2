//! Error taxonomy of the SDK.

use vstd::prelude::*;

verus! {

/// Outcome classification of one credential exchange with the remote
/// endpoint, as reported by the transport collaborator.
///
/// The two kinds are distinguished because callers may want different
/// backoff policies, though the default refresh policy treats them alike.
#[derive(Clone, Copy, Debug, PartialEq, Eq, Structural)]
pub enum FetchError {
    /// Connection-, TLS- or timeout-level fault: the remote endpoint was
    /// never reached or the exchange broke off.
    TransportFailure,
    /// The remote endpoint answered but declined the exchange, for example
    /// because the secret is invalid or the answer holds no usable token.
    RemoteRejection,
}

/// Errors surfaced to users of the SDK.
#[derive(Clone, Copy, Debug, PartialEq, Eq, Structural)]
pub enum FinamSdkError {
    /// A transport-level fault while talking to the remote API.
    Transport,
    /// The remote API answered with an error status.
    Status,
    /// The stored token cannot be encoded as a request metadata value.
    InvalidMetadataValue,
}

/// The construction error that a failed credential exchange maps to:
/// the fetcher's error carried through unchanged in kind.
pub open spec fn sdk_error_of_fetch(e: FetchError) -> FinamSdkError {
    match e {
        FetchError::TransportFailure => FinamSdkError::Transport,
        FetchError::RemoteRejection => FinamSdkError::Status,
    }
}

} // verus!
