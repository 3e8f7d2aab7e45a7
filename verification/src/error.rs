//! Why a request is turned away.

use vstd::prelude::*;

verus! {

/// The reasons for which a gate rejects a request.
#[derive(Clone, Copy, Debug, PartialEq, Eq, Structural)]
pub enum AuthError {
    /// No bearer token was presented: the header is absent or has another
    /// scheme.
    MissingToken,
    /// The token does not have the structure of a signed token.
    MalformedToken,
    /// The signature is not the one the server's secret gives.
    SignatureInvalid,
    /// The token's expiry time has been reached.
    Expired,
    /// The token is sound, but its subject is not a UUID.
    SubjectNotParseable,
    /// The caller's role is not among those the route admits.
    RoleNotPermitted,
    /// No identity was attached to the request before a gate that needs one.
    MissingIdentityContext,
}

/// The reasons for which no token can be issued.
#[derive(Clone, Copy, Debug, PartialEq, Eq, Structural)]
pub enum IssueError {
    /// The expiry time cannot be represented in the claims.
    ExpiryOutOfRange,
    /// The JSON reader does not give back the claims as they were written.
    Unreadable,
    /// The claims or the secret are longer than can be signed.
    TooLong,
}

impl AuthError {
    /// The status code that answers a request rejected for this reason.
    pub open spec fn status_spec(self) -> u16 {
        if self == AuthError::RoleNotPermitted {
            403
        } else {
            401
        }
    }

    /// The status code that answers a request rejected for this reason: 403
    /// where the role is not permitted, 401 for everything else.
    pub fn status(&self) -> (code: u16)
        ensures
            code == self.status_spec(),
    {
        match self {
            AuthError::RoleNotPermitted => 403,
            _ => 401,
        }
    }
}

} // verus!
