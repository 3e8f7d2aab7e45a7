//! User accounts.

use crate::clock;
use crate::clock::Timestamp;
use crate::ident;
use crate::ident::{is_random_uuid, uuid_hyphenated};
use crate::text::same;
use vstd::prelude::*;

verus! {

/// The role of a user. Every user has exactly one.
#[derive(Clone, Copy, Debug, PartialEq, Eq, Structural)]
pub enum UserRole {
    User,
    Admin,
}

impl Default for UserRole {
    fn default() -> (role: Self)
        ensures
            role == UserRole::User,
    {
        UserRole::User
    }
}

impl UserRole {
    /// The role's name in tokens and in the store.
    pub open spec fn text(self) -> Seq<char> {
        match self {
            UserRole::User => "user"@,
            UserRole::Admin => "admin"@,
        }
    }

    /// The role that `text` names; what names no role is read as `User`.
    pub open spec fn of_text(text: Seq<char>) -> UserRole {
        if text == "admin"@ {
            UserRole::Admin
        } else {
            UserRole::User
        }
    }

    /// The role's name in tokens and in the store: `user` or `admin`.
    pub fn as_str(&self) -> (name: &'static str)
        ensures
            name@ == self.text(),
    {
        match self {
            UserRole::User => "user",
            UserRole::Admin => "admin",
        }
    }

    /// Reads a role as the store holds it: `admin` is `Admin`, and
    /// everything else is `User`.
    pub fn from_text(text: &str) -> (role: UserRole)
        ensures
            role == UserRole::of_text(text@),
    {
        if same(text, "admin") {
            UserRole::Admin
        } else {
            UserRole::User
        }
    }
}

/// A user account as the store holds it.
#[derive(Debug)]
pub struct User {
    /// The user's id: a UUID in hyphenated text form.
    pub id: String,
    pub name: String,
    pub email: String,
    /// The hash of the password, never the password.
    pub password: String,
    pub role: UserRole,
    pub created_at: Timestamp,
    pub updated_at: Timestamp,
}

/// The changes that an update request asks for: each field that is present
/// replaces the stored one.
#[derive(Debug)]
pub struct UpdateUserRequest {
    pub name: Option<String>,
    pub email: Option<String>,
    pub password: Option<String>,
    pub role: Option<UserRole>,
}

/// A user account as answers show it: without the password hash.
#[derive(Debug)]
pub struct UserResponse {
    pub id: String,
    pub name: String,
    pub email: String,
    pub role: UserRole,
    pub created_at: Timestamp,
    pub updated_at: Timestamp,
}

impl UserResponse {
    /// Whether this shows `user`: every field but the password hash.
    pub open spec fn shows(&self, user: &User) -> bool {
        &&& self.id@ == user.id@
        &&& self.name@ == user.name@
        &&& self.email@ == user.email@
        &&& self.role == user.role
        &&& self.created_at == user.created_at
        &&& self.updated_at == user.updated_at
    }
}

impl From<User> for UserResponse {
    /// The account as answers show it: each field moved over, the password
    /// hash dropped.
    fn from(user: User) -> (shown: Self) {
        UserResponse {
            id: user.id,
            name: user.name,
            email: user.email,
            role: user.role,
            created_at: user.created_at,
            updated_at: user.updated_at,
        }
    }
}

impl vstd::std_specs::convert::FromSpecImpl<User> for UserResponse {
    open spec fn obeys_from_spec() -> bool {
        true
    }

    open spec fn from_spec(user: User) -> Self {
        UserResponse {
            id: user.id,
            name: user.name,
            email: user.email,
            role: user.role,
            created_at: user.created_at,
            updated_at: user.updated_at,
        }
    }
}

impl User {
    /// Whether this is the account that is made at the time `now` with the
    /// id `id` for the given name, email, password hash and role, where no
    /// role means `User`.
    pub open spec fn is_new(
        &self,
        id: u128,
        now: Timestamp,
        name: Seq<char>,
        email: Seq<char>,
        password: Seq<char>,
        role: Option<UserRole>,
    ) -> bool {
        &&& self.id@ == uuid_hyphenated(id)
        &&& self.name@ == name
        &&& self.email@ == email
        &&& self.password@ == password
        &&& self.role == match role {
            Some(role) => role,
            None => UserRole::User,
        }
        &&& self.created_at == now
        &&& self.updated_at == now
    }

    /// The account that is made at the time `now` with the id `id`.
    pub fn with(
        id: u128,
        now: Timestamp,
        name: String,
        email: String,
        password: String,
        role: Option<UserRole>,
    ) -> (user: Self)
        ensures
            user.is_new(id, now, name@, email@, password@, role),
    {
        let role = match role {
            Some(role) => role,
            None => UserRole::default(),
        };
        Self {
            id: ident::hyphenated(id),
            name,
            email,
            password,
            role,
            created_at: now,
            updated_at: now,
        }
    }

    /// A new account, with a fresh random id, made now. The id is that of a
    /// random UUID and the time one that the clock can read; whatever they
    /// are, the account is the one that `with` makes of them.
    pub fn new(name: String, email: String, password: String, role: Option<UserRole>) -> (user:
        Self)
        ensures
            exists|id: u128, now: Timestamp|
                {
                    &&& #[trigger] user.is_new(id, now, name@, email@, password@, role)
                    &&& is_random_uuid(id)
                    &&& now.is_reading()
                },
    {
        let now = clock::now();
        let id = ident::fresh();
        let user = Self::with(id, now, name, email, password, role);
        assert(user.is_new(id, now, name@, email@, password@, role));
        user
    }

    /// The account as answers show it.
    pub fn to_response(&self) -> (shown: UserResponse)
        ensures
            shown.shows(self),
    {
        UserResponse {
            id: self.id.clone(),
            name: self.name.clone(),
            email: self.email.clone(),
            role: self.role,
            created_at: self.created_at,
            updated_at: self.updated_at,
        }
    }
}

} // verus!
