//! What a gate answers when it turns a request away.

use crate::error::AuthError;
use crate::ident;
use crate::ident::uuid_hyphenated;
use crate::json;
use crate::json::json_quoted;
use crate::text::{debug_quote, debug_quoted};
use vstd::prelude::*;
use vstd::string::*;

verus! {

/// The diagnostic detail of a 403 answer. Roles are not secret.
#[derive(Debug)]
pub struct Denial {
    pub error: String,
    pub message: String,
    pub required_roles: Vec<String>,
    pub user_role: String,
    pub user_id: String,
}

/// The texts of a list of strings.
pub open spec fn texts(list: Seq<String>) -> Seq<Seq<char>> {
    Seq::new(list.len(), |i: int| list[i]@)
}

/// The items of `roles` as Rust writes a list of strings for debugging,
/// without the brackets: each in quotes, a comma and a space between two.
pub open spec fn listed(roles: Seq<Seq<char>>) -> Seq<char>
    decreases roles.len(),
{
    if roles.len() == 0 {
        Seq::empty()
    } else if roles.len() == 1 {
        debug_quoted(roles[0])
    } else {
        listed(roles.drop_last()) + ", "@ + debug_quoted(roles.last())
    }
}

/// The sentence that tells a caller which roles a route asks for and which
/// one the caller has.
pub open spec fn denial_message(required: Seq<Seq<char>>, role: Seq<char>) -> Seq<char> {
    "Insufficient permissions. Required roles: ["@ + listed(required) + "], Your role: '"@ + role
        + "'"@
}

impl Denial {
    /// Whether this is the detail for a caller with the role `role` and the
    /// id `user_id` on a route that asks for one of `required`.
    pub open spec fn describes(&self, required: Seq<Seq<char>>, role: Seq<char>, user_id: u128) -> bool {
        &&& self.error@ == "Access denied"@
        &&& self.message@ == denial_message(required, role)
        &&& texts(self.required_roles@) == required
        &&& self.user_role@ == role
        &&& self.user_id@ == uuid_hyphenated(user_id)
    }
}

/// A copy of a list of strings.
pub fn copy_of(list: &Vec<String>) -> (copy: Vec<String>)
    ensures
        texts(copy@) == texts(list@),
{
    let mut copy: Vec<String> = Vec::new();
    let mut i: usize = 0;
    while i < list.len()
        invariant
            i <= list@.len(),
            copy@.len() == i,
            forall|j: int| 0 <= j < i ==> copy@[j]@ == list@[j]@,
        decreases list@.len() - i,
    {
        copy.push(list[i].clone());
        i = i + 1;
    }
    assert(texts(copy@) =~= texts(list@));
    copy
}

/// Writes the sentence of a 403 answer.
pub fn write_denial_message(required: &Vec<String>, role: &str) -> (message: String)
    ensures
        message@ == denial_message(texts(required@), role@),
{
    let mut message = String::from_str("Insufficient permissions. Required roles: [");
    let ghost opening = message@;
    let mut i: usize = 0;
    while i < required.len()
        invariant
            i <= required@.len(),
            message@ == opening + listed(texts(required@).take(i as int)),
        decreases required@.len() - i,
    {
        let ghost before = texts(required@).take(i as int);
        let ghost after = texts(required@).take(i + 1);
        if i > 0 {
            message.append(", ");
        }
        message.append(debug_quote(required[i].as_str()).as_str());
        proof {
            assert(after.drop_last() =~= before);
            assert(after.last() == required@[i as int]@);
            if i == 0 {
                assert(before =~= Seq::<Seq<char>>::empty());
                assert(message@ =~= opening + listed(after));
            } else {
                assert(message@ =~= opening + listed(after));
            }
        }
        i = i + 1;
    }
    assert(texts(required@).take(i as int) =~= texts(required@));
    message.append("], Your role: '");
    message.append(role);
    message.append("'");
    message
}

/// The body of an answer.
#[derive(Debug)]
pub enum Body {
    /// A single JSON string.
    Message(String),
    /// A JSON object with the members of [`Denial`].
    Denial(Denial),
}

/// A rejection: the reason, kept for the operator's log, and the body that
/// the caller gets. The status code follows from the reason.
#[derive(Debug)]
pub struct Rejection {
    pub reason: AuthError,
    pub body: Body,
}

/// The body of every 401 answer of a gate.
pub open spec fn gate_message() -> Seq<char> {
    "Invalid or missing authorization token"@
}

/// The body of the 401 answer of a handler that finds no identity.
pub open spec fn handler_message() -> Seq<char> {
    "User not authenticated"@
}

/// The items of `items` as JSON string literals, with a comma between two.
pub open spec fn json_items(items: Seq<Seq<char>>) -> Seq<char>
    decreases items.len(),
{
    if items.len() == 0 {
        Seq::empty()
    } else if items.len() == 1 {
        json_quoted(items[0])
    } else {
        json_items(items.drop_last()) + ","@ + json_quoted(items.last())
    }
}

/// Appends `items` as JSON string literals, with a comma between two.
pub fn push_json_items(text: &mut String, items: &Vec<String>)
    ensures
        final(text)@ == old(text)@ + json_items(texts(items@)),
{
    let mut i: usize = 0;
    while i < items.len()
        invariant
            i <= items@.len(),
            text@ == old(text)@ + json_items(texts(items@).take(i as int)),
        decreases items@.len() - i,
    {
        let ghost before = texts(items@).take(i as int);
        let ghost after = texts(items@).take(i + 1);
        if i > 0 {
            text.append(",");
        }
        text.append(json::quote(items[i].as_str()).unwrap().as_str());
        proof {
            assert(after.drop_last() =~= before);
            assert(after.last() == items@[i as int]@);
            if i == 0 {
                assert(before =~= Seq::<Seq<char>>::empty());
            }
            assert(text@ =~= old(text)@ + json_items(after));
        }
        i = i + 1;
    }
    assert(texts(items@).take(i as int) =~= texts(items@));
}

impl Denial {
    /// The detail as a JSON object, its members in alphabetical order.
    pub open spec fn json_text(&self) -> Seq<char> {
        "{\"error\":"@ + json_quoted(self.error@) + ",\"message\":"@ + json_quoted(self.message@)
            + ",\"required_roles\":["@ + json_items(texts(self.required_roles@))
            + "],\"user_id\":"@ + json_quoted(self.user_id@) + ",\"user_role\":"@ + json_quoted(
            self.user_role@,
        ) + "}"@
    }

    /// Writes the detail as a JSON object.
    pub fn to_json(&self) -> (text: String)
        ensures
            text@ == self.json_text(),
    {
        let mut text = String::from_str("{\"error\":");
        text.append(json::quote(self.error.as_str()).unwrap().as_str());
        text.append(",\"message\":");
        text.append(json::quote(self.message.as_str()).unwrap().as_str());
        text.append(",\"required_roles\":[");
        push_json_items(&mut text, &self.required_roles);
        text.append("],\"user_id\":");
        text.append(json::quote(self.user_id.as_str()).unwrap().as_str());
        text.append(",\"user_role\":");
        text.append(json::quote(self.user_role.as_str()).unwrap().as_str());
        text.append("}");
        text
    }
}

impl Body {
    /// The body as JSON text.
    pub open spec fn json_text(&self) -> Seq<char> {
        match self {
            Body::Message(message) => json_quoted(message@),
            Body::Denial(detail) => detail.json_text(),
        }
    }

    /// Writes the body as JSON text.
    pub fn to_json(&self) -> (text: String)
        ensures
            text@ == self.json_text(),
    {
        match self {
            Body::Message(message) => json::quote(message.as_str()).unwrap(),
            Body::Denial(detail) => detail.to_json(),
        }
    }
}

impl Rejection {
    /// The status code of the answer.
    pub open spec fn status_spec(&self) -> u16 {
        self.reason.status_spec()
    }

    /// The status code of the answer: 401 or 403.
    pub fn status(&self) -> (code: u16)
        ensures
            code == self.status_spec(),
            code == 401 || code == 403,
    {
        self.reason.status()
    }

    /// Whether this is the one 401 answer that a gate gives, whatever the
    /// reason.
    pub open spec fn is_gate_unauthorized(&self) -> bool {
        &&& self.status_spec() == 401
        &&& self.body matches Body::Message(m)
        &&& m@ == gate_message()
    }

    /// The answer of a gate that finds no valid identity, for `reason`. The
    /// body is the same for every reason, so that a caller learns nothing of
    /// why a token failed.
    pub fn unauthorized(reason: AuthError) -> (r: Rejection)
        ensures
            r.reason == reason,
            r.body matches Body::Message(m) && m@ == gate_message(),
            reason != AuthError::RoleNotPermitted ==> r.is_gate_unauthorized(),
    {
        Rejection {
            reason,
            body: Body::Message(String::from_str("Invalid or missing authorization token")),
        }
    }

    /// The 403 answer for a caller whose role `role` is not among
    /// `required`, with the diagnostic detail.
    pub fn forbidden(required: &Vec<String>, role: &str, user_id: u128) -> (r: Rejection)
        ensures
            r.reason == AuthError::RoleNotPermitted,
            r.status_spec() == 403,
            r.body matches Body::Denial(detail) && detail.describes(texts(required@), role@, user_id),
    {
        Rejection {
            reason: AuthError::RoleNotPermitted,
            body: Body::Denial(
                Denial {
                    error: String::from_str("Access denied"),
                    message: write_denial_message(required, role),
                    required_roles: copy_of(required),
                    user_role: String::from_str(role),
                    user_id: ident::hyphenated(user_id),
                },
            ),
        }
    }

    /// The 401 answer of a handler that needs an identity and finds none.
    pub fn not_authenticated() -> (r: Rejection)
        ensures
            r.reason == AuthError::MissingIdentityContext,
            r.status_spec() == 401,
            r.body matches Body::Message(m) && m@ == handler_message(),
    {
        Rejection {
            reason: AuthError::MissingIdentityContext,
            body: Body::Message(String::from_str("User not authenticated")),
        }
    }
}

} // verus!
