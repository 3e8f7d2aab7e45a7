//! The decisions of the user routes. The caller talks to the store and
//! hands each outcome in; what to answer, or what to ask the store next, is
//! decided here.

use crate::handlers::reply::{Reply, StoreFailure};
use crate::models::user_model::{UpdateUserRequest, User, UserResponse};
use crate::text::same;
use vstd::prelude::*;

verus! {

/// Whether `reply` shows `user` with the status 200.
pub open spec fn shows(reply: Reply<UserResponse>, user: &User) -> bool {
    reply matches Reply::Content { status, body } && status == 200 && body.shows(user)
}

/// Answers a request for one user with what the store found: the user,
/// 404 where there is none, 500 where the store failed.
pub fn found_user(lookup: Result<Option<User>, StoreFailure>) -> (reply: Reply<UserResponse>)
    ensures
        match lookup {
            Ok(Some(user)) => shows(reply, &user),
            Ok(None) => reply.refuses(404, "User not found"@),
            Err(_) => reply.refuses(500, "Error fetching user"@),
        },
{
    match lookup {
        Ok(Some(user)) => Reply::Content { status: 200, body: user.to_response() },
        Ok(None) => Reply::refuse(404, "User not found"),
        Err(_) => Reply::refuse(500, "Error fetching user"),
    }
}

/// The users of a list as answers show them, in the same order.
pub fn to_responses(users: &Vec<User>) -> (shown: Vec<UserResponse>)
    ensures
        shown@.len() == users@.len(),
        forall|i: int| 0 <= i < users@.len() ==> (#[trigger] shown@[i]).shows(&users@[i]),
{
    let mut shown: Vec<UserResponse> = Vec::new();
    let mut i: usize = 0;
    while i < users.len()
        invariant
            i <= users@.len(),
            shown@.len() == i,
            forall|j: int| 0 <= j < i ==> (#[trigger] shown@[j]).shows(&users@[j]),
        decreases users@.len() - i,
    {
        shown.push(users[i].to_response());
        i = i + 1;
    }
    shown
}

/// Answers a request for all users with what the store found: the users
/// in the store's order, or 500 where the store failed.
pub fn listed_users(found: Result<Vec<User>, StoreFailure>) -> (reply: Reply<Vec<UserResponse>>)
    ensures
        match found {
            Ok(users) => {
                &&& reply matches Reply::Content { status, body }
                &&& status == 200
                &&& body@.len() == users@.len()
                &&& forall|i: int| 0 <= i < users@.len() ==> (#[trigger] body@[i]).shows(&users@[i])
            },
            Err(_) => reply.refuses(500, "Error fetching users"@),
        },
{
    match found {
        Ok(users) => Reply::Content { status: 200, body: to_responses(&users) },
        Err(_) => Reply::refuse(500, "Error fetching users"),
    }
}

/// What an update of a user does next.
#[derive(Debug)]
pub enum UpdateUserStep {
    /// Ask the store whether the new email is taken.
    CheckEmail,
    /// Ask the store for the user as it stands.
    FetchCurrent,
    /// Write the update.
    Write,
    /// Answer: the update ends here.
    Answer(Reply<UserResponse>),
}

/// The first step of an update: a request that changes the email has the
/// store asked whether it is taken; any other is written at once.
pub fn update_user_start(update: &UpdateUserRequest) -> (step: UpdateUserStep)
    ensures
        update.email is Some ==> step is CheckEmail,
        update.email is None ==> step is Write,
{
    match &update.email {
        Some(_) => UpdateUserStep::CheckEmail,
        None => UpdateUserStep::Write,
    }
}

/// The step after the store has said whether the new email is taken: a
/// taken one may be the user's own, so the user is fetched; a free one is
/// written.
pub fn update_user_email_checked(taken: Result<bool, StoreFailure>) -> (step: UpdateUserStep)
    ensures
        match taken {
            Ok(true) => step is FetchCurrent,
            Ok(false) => step is Write,
            Err(_) => step matches UpdateUserStep::Answer(reply) && reply.refuses(
                500,
                "Error checking email"@,
            ),
        },
{
    match taken {
        Ok(true) => UpdateUserStep::FetchCurrent,
        Ok(false) => UpdateUserStep::Write,
        Err(_) => UpdateUserStep::Answer(Reply::refuse(500, "Error checking email")),
    }
}

/// The step after the store has given the user as it stands, for an update
/// to the taken email `email`: the update is written where the email is the
/// user's own, and answered with 409 where it is another's.
pub fn update_user_current_fetched(
    email: &str,
    current: Result<Option<User>, StoreFailure>,
) -> (step: UpdateUserStep)
    ensures
        match current {
            Ok(Some(user)) => if user.email@ == email@ {
                step is Write
            } else {
                step matches UpdateUserStep::Answer(reply) && reply.refuses(
                    409,
                    "Email already exists"@,
                )
            },
            Ok(None) => step matches UpdateUserStep::Answer(reply) && reply.refuses(
                404,
                "User not found"@,
            ),
            Err(_) => step matches UpdateUserStep::Answer(reply) && reply.refuses(
                500,
                "Error checking user"@,
            ),
        },
{
    match current {
        Ok(Some(user)) => {
            if same(user.email.as_str(), email) {
                UpdateUserStep::Write
            } else {
                UpdateUserStep::Answer(Reply::refuse(409, "Email already exists"))
            }
        },
        Ok(None) => UpdateUserStep::Answer(Reply::refuse(404, "User not found")),
        Err(_) => UpdateUserStep::Answer(Reply::refuse(500, "Error checking user")),
    }
}

/// Answers an update with what the store wrote: the user as it stands
/// now, 404 where there is none, 500 where the store failed.
pub fn updated_user(written: Result<Option<User>, StoreFailure>) -> (reply: Reply<UserResponse>)
    ensures
        match written {
            Ok(Some(user)) => shows(reply, &user),
            Ok(None) => reply.refuses(404, "User not found"@),
            Err(_) => reply.refuses(500, "Error updating user"@),
        },
{
    match written {
        Ok(Some(user)) => Reply::Content { status: 200, body: user.to_response() },
        Ok(None) => Reply::refuse(404, "User not found"),
        Err(_) => Reply::refuse(500, "Error updating user"),
    }
}

/// Answers a deletion with what the store did: 204 where a user was
/// deleted, 404 where there was none, 500 where the store failed.
pub fn deleted_user(deleted: Result<bool, StoreFailure>) -> (reply: Reply<()>)
    ensures
        match deleted {
            Ok(true) => reply is NoContent,
            Ok(false) => reply.refuses(404, "User not found"@),
            Err(_) => reply.refuses(500, "Error deleting user"@),
        },
{
    match deleted {
        Ok(true) => Reply::NoContent,
        Ok(false) => Reply::refuse(404, "User not found"),
        Err(_) => Reply::refuse(500, "Error deleting user"),
    }
}

} // verus!
