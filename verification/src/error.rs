//! Failures that the host learns of and the client does not.

use vstd::prelude::*;

verus! {

/// An error that is of interest to the server and is not communicated to
/// the party that made the request.
#[derive(Debug, Clone, Copy, PartialEq, Eq)]
pub enum OAuthError {
    /// The authorization code exchange cannot go on, and no redirect
    /// target can be trusted.
    InternalCodeError(),
    /// The request for a resource was malformed before any token was
    /// looked at.
    InternalAccessError(),
    /// The token is missing, not valid, or does not cover the resource.
    AccessDenied,
}

impl OAuthError {
    /// A description for logs. It is the same for each error, so that it
    /// gives nothing away.
    pub fn description(&self) -> (text: &'static str)
        ensures
            text@ == "OAuthError"@,
    {
        "OAuthError"
    }
}

} // verus!
