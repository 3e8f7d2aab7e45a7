//! What a handler answers.

use crate::ident;
use crate::ident::uuid_parsed;
use crate::middleware::auth_middleware::{AuthenticatedUser, RequestContext};
use vstd::prelude::*;
use vstd::string::*;

verus! {

/// That the store failed. The cause stays with the caller, for the log.
#[derive(Clone, Copy, Debug, PartialEq, Eq, Structural)]
pub struct StoreFailure;

/// The answer of a handler.
#[derive(Debug)]
pub enum Reply<T> {
    /// Success with a body: the status, 200 or 201, and the value to
    /// write as JSON.
    Content { status: u16, body: T },
    /// Success without a body: status 204.
    NoContent,
    /// Anything else: the status, and a message as the JSON string body.
    Refused { status: u16, message: String },
}

impl<T> Reply<T> {
    /// The status code of the answer.
    pub open spec fn status_spec(&self) -> u16 {
        match self {
            Reply::Content { status, .. } => *status,
            Reply::NoContent => 204,
            Reply::Refused { status, .. } => *status,
        }
    }

    /// The status code of the answer.
    pub fn status(&self) -> (code: u16)
        ensures
            code == self.status_spec(),
    {
        match self {
            Reply::Content { status, .. } => *status,
            Reply::NoContent => 204,
            Reply::Refused { status, .. } => *status,
        }
    }

    /// Whether this is the refusal with the status `status` and the body
    /// `message`.
    pub open spec fn refuses(&self, status: u16, message: Seq<char>) -> bool {
        self matches Reply::Refused { status: s, message: m } && s == status && m@ == message
    }

    /// The refusal with the status `status` and the body `message`.
    pub fn refuse(status: u16, message: &str) -> (reply: Self)
        ensures
            reply.refuses(status, message@),
    {
        Reply::Refused { status, message: String::from_str(message) }
    }
}

/// Reads the id in a route's path: what is no UUID is answered with 400.
pub fn parse_uuid<T>(id: &str) -> (r: Result<u128, Reply<T>>)
    ensures
        match r {
            Ok(value) => uuid_parsed(id@) == Some(value),
            Err(reply) => uuid_parsed(id@) is None && reply.refuses(400, "Invalid UUID format"@),
        },
{
    match ident::parse(id) {
        Some(value) => Ok(value),
        None => Err(Reply::refuse(400, "Invalid UUID format")),
    }
}

/// The caller of a route behind the authentication gate: the identity in
/// the context, or the handler's 401 where there is none.
pub fn caller<T>(context: &RequestContext) -> (r: Result<AuthenticatedUser, Reply<T>>)
    ensures
        match r {
            Ok(user) => context.identity_view() == Some(user@),
            Err(reply) => context.identity is None && reply.refuses(
                401,
                "User not authenticated"@,
            ),
        },
{
    match &context.identity {
        Some(user) => Ok(user.clone()),
        None => Err(Reply::refuse(401, "User not authenticated")),
    }
}

} // verus!
