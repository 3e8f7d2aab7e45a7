//! Users between the store's rows and the model. The queries themselves
//! are the caller's; what is read from a row and what an update writes is
//! decided here.

use crate::clock;
use crate::clock::Timestamp;
use crate::models::user_model::{UpdateUserRequest, User, UserRole};
use vstd::prelude::*;

verus! {

/// A row of the table of users.
#[derive(Debug)]
pub struct UserRow {
    pub id: String,
    pub name: String,
    pub email: String,
    pub password: String,
    pub role: String,
    pub created_at: Option<Timestamp>,
    pub updated_at: Option<Timestamp>,
}

/// The time in a column that may be empty: `now` where it is.
pub open spec fn time_or(stored: Option<Timestamp>, now: Timestamp) -> Timestamp {
    match stored {
        Some(t) => t,
        None => now,
    }
}

/// Whether `user` is what `row` holds, read at the time `now`.
pub open spec fn reads_row(user: &User, row: &UserRow, now: Timestamp) -> bool {
    &&& user.id@ == row.id@
    &&& user.name@ == row.name@
    &&& user.email@ == row.email@
    &&& user.password@ == row.password@
    &&& user.role == UserRole::of_text(row.role@)
    &&& user.created_at == time_or(row.created_at, now)
    &&& user.updated_at == time_or(row.updated_at, now)
}

/// The user that `row` holds, read at the time `now`: a role that the
/// model does not know reads as `User`, and an empty time column as `now`.
pub fn user_of_row_at(row: UserRow, now: Timestamp) -> (user: User)
    ensures
        reads_row(&user, &row, now),
{
    let role = UserRole::from_text(row.role.as_str());
    let created_at = match row.created_at {
        Some(t) => t,
        None => now,
    };
    let updated_at = match row.updated_at {
        Some(t) => t,
        None => now,
    };
    User {
        id: row.id,
        name: row.name,
        email: row.email,
        password: row.password,
        role,
        created_at,
        updated_at,
    }
}

/// The user that `row` holds, read now. The clock reads a time that is not
/// before the epoch; whatever it reads, the user
/// is the one that `user_of_row_at` reads at that time.
pub fn user_of_row(row: UserRow) -> (user: User)
    ensures
        exists|now: Timestamp| now.is_reading() && #[trigger] reads_row(&user, &row, now),
{
    let now = clock::now();
    let user = user_of_row_at(row, now);
    assert(reads_row(&user, &row, now));
    user
}

/// The values that an update writes to a user's row.
#[derive(Debug)]
pub struct UserChange {
    pub name: String,
    pub email: String,
    pub password: String,
    pub role: UserRole,
}

/// The text that an update leaves in a column: the new one where the
/// request has one, else the stored one.
pub open spec fn text_or(new: Option<String>, stored: Seq<char>) -> Seq<char> {
    match new {
        Some(text) => text@,
        None => stored,
    }
}

fn chosen(new: &Option<String>, stored: &String) -> (text: String)
    ensures
        text@ == text_or(*new, stored@),
{
    match new {
        Some(text) => text.clone(),
        None => stored.clone(),
    }
}

/// What the update `update` writes to the row of `current`: each field of
/// the request that is present, and the stored value for each that is not.
pub fn user_change(current: &User, update: &UpdateUserRequest) -> (change: UserChange)
    ensures
        change.name@ == text_or(update.name, current.name@),
        change.email@ == text_or(update.email, current.email@),
        change.password@ == text_or(update.password, current.password@),
        change.role == match update.role {
            Some(role) => role,
            None => current.role,
        },
{
    UserChange {
        name: chosen(&update.name, &current.name),
        email: chosen(&update.email, &current.email),
        password: chosen(&update.password, &current.password),
        role: match update.role {
            Some(role) => role,
            None => current.role,
        },
    }
}

} // verus!
