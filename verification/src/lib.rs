//! Bearer-token authentication and role-based authorization for a JSON API
//! of users and todo items.
//!
//! The core is the chain of two gates in front of a route group. The
//! authentication gate takes the token from the `Authorization` header,
//! verifies it with the token codec and attaches the identity it states to
//! the request's context. The authorization gate admits the request where
//! the role of that identity is one of those the route asks for. The
//! handlers' decisions on what the store returns stand beside them.
//!
//! Calls into other crates are made in small functions whose contracts are
//! taken on trust: signing in `mac`, JSON in `json`, UUIDs in `ident`,
//! password hashes in `password`, the clock in `clock`, and three
//! functions of the standard library in `text`. Everything else is proved.

pub mod base64url;
pub mod clock;
pub mod error;
pub mod handlers;
pub mod ident;
pub mod json;
pub mod mac;
pub mod middleware;
pub mod models;
pub mod password;
pub mod response;
pub mod schema;
pub mod text;
pub mod token;
