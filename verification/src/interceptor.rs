//! The credential cache and the per-request decorator.
//!
//! `FinamSdkInterceptor` holds the current bearer token. From the moment
//! construction succeeds a valid, non-empty token is always available for
//! read; there is no uninitialized state visible to callers. Replacing the
//! token is a whole-value write, so a read observes either the value before
//! a refresh or the value after it, never a mixture. The embedding runtime
//! supplies the sharing and locking around this type; the operations here
//! are the only ones that touch the token.

use vstd::prelude::*;

use crate::errors::FetchError;
use crate::errors::FinamSdkError;
use crate::errors::sdk_error_of_fetch;
use crate::metadata::HeaderEntry;
use crate::metadata::Request;
use crate::metadata::check_header_value;
use crate::metadata::legal_header_value;

verus! {

/// The credential cache: the current bearer token, attached by the
/// decorator to every outgoing request.
#[derive(Clone, Debug)]
pub struct FinamSdkInterceptor {
    jwt_token: String,
}

impl View for FinamSdkInterceptor {
    type V = Seq<char>;

    closed spec fn view(&self) -> Seq<char> {
        self.jwt_token@
    }
}

impl FinamSdkInterceptor {
    /// Well-formed: a token is present — it is never empty.
    pub open spec fn wf(&self) -> bool {
        self@.len() > 0
    }

    /// Builds the cache from the outcome of the very first credential
    /// exchange. Construction is atomic: on a failed exchange the fetcher's
    /// error comes back unchanged in kind and no cache exists; an exchange
    /// that answered with an empty token counts as a rejection by the
    /// remote, since an empty token could never be served.
    pub fn new(first_fetch: Result<String, FetchError>) -> (r: Result<Self, FinamSdkError>)
        ensures
            match first_fetch {
                Ok(t) => {
                    if t@.len() > 0 {
                        r matches Ok(c) && c@ == t@ && c.wf()
                    } else {
                        r == Err::<Self, FinamSdkError>(FinamSdkError::Status)
                    }
                },
                Err(e) => r == Err::<Self, FinamSdkError>(sdk_error_of_fetch(e)),
            },
    {
        match first_fetch {
            Ok(t) => {
                if t.as_str().is_empty() {
                    Err(FinamSdkError::Status)
                } else {
                    Ok(FinamSdkInterceptor { jwt_token: t })
                }
            },
            Err(FetchError::TransportFailure) => Err(FinamSdkError::Transport),
            Err(FetchError::RemoteRejection) => Err(FinamSdkError::Status),
        }
    }

    /// Returns a copy of the presently stored token. The read involves no
    /// network round trip and cannot fail: the `Result` shape is kept for
    /// the embedding runtime, whose shared wrapper reports a synchronization
    /// fault through the same channel.
    pub fn get_jwt_token(&self) -> (r: Result<String, FinamSdkError>)
        ensures
            r matches Ok(t) && t@ == self@,
    {
        Ok(self.jwt_token.clone())
    }

    /// Replaces the stored token with a fresh, non-empty one. The
    /// replacement is a single whole-value write.
    pub fn store(&mut self, token: String)
        requires
            token@.len() > 0,
        ensures
            final(self)@ == token@,
            final(self).wf(),
    {
        self.jwt_token = token;
    }

    /// The request decorator: reads the current token and, when its content
    /// is legal as a metadata value, appends it to the request under the
    /// `authorization` key, leaving everything else unchanged. When the
    /// token is not a legal metadata value the request is left untouched
    /// and the call fails with `InvalidMetadataValue`.
    pub fn call(&self, request: &mut Request) -> (r: Result<(), FinamSdkError>)
        ensures
            legal_header_value(self@) ==> r is Ok
                && final(request)@ == old(request)@.push(("authorization"@, self@)),
            !legal_header_value(self@) ==> r == Err::<(), FinamSdkError>(
                FinamSdkError::InvalidMetadataValue,
            ) && final(request)@ == old(request)@,
    {
        if check_header_value(self.jwt_token.as_str()) {
            let entry = HeaderEntry {
                key: "authorization".to_owned(),
                value: self.jwt_token.clone(),
            };
            request.metadata.push(entry);
            proof {
                assert(request@ =~= old(request)@.push(("authorization"@, self@)));
            }
            Ok(())
        } else {
            Err(FinamSdkError::InvalidMetadataValue)
        }
    }
}

} // verus!
