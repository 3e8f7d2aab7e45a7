//! Todo items.

use crate::clock;
use crate::clock::Timestamp;
use crate::ident;
use crate::ident::{is_random_uuid, uuid_hyphenated};
use crate::text::same;
use vstd::prelude::*;

verus! {

/// How far a todo item has come.
#[derive(Clone, Copy, Debug, PartialEq, Eq, Structural)]
pub enum TodoStatus {
    Pending,
    InProcess,
    Completed,
}

impl Default for TodoStatus {
    fn default() -> (status: Self)
        ensures
            status == TodoStatus::Pending,
    {
        TodoStatus::Pending
    }
}

impl TodoStatus {
    /// The status's name in the store.
    pub open spec fn text(self) -> Seq<char> {
        match self {
            TodoStatus::Pending => "pending"@,
            TodoStatus::InProcess => "in_process"@,
            TodoStatus::Completed => "completed"@,
        }
    }

    /// The status that `text` names; what names no status is read as
    /// `Pending`.
    pub open spec fn of_text(text: Seq<char>) -> TodoStatus {
        if text == "in_process"@ {
            TodoStatus::InProcess
        } else if text == "completed"@ {
            TodoStatus::Completed
        } else {
            TodoStatus::Pending
        }
    }

    /// The status's name in the store.
    pub fn as_str(&self) -> (name: &'static str)
        ensures
            name@ == self.text(),
    {
        match self {
            TodoStatus::Pending => "pending",
            TodoStatus::InProcess => "in_process",
            TodoStatus::Completed => "completed",
        }
    }

    /// Reads a status as the store holds it; everything that names none is
    /// `Pending`.
    pub fn from_text(text: &str) -> (status: TodoStatus)
        ensures
            status == TodoStatus::of_text(text@),
    {
        if same(text, "in_process") {
            TodoStatus::InProcess
        } else if same(text, "completed") {
            TodoStatus::Completed
        } else {
            TodoStatus::Pending
        }
    }
}

/// A todo item as the store holds it.
#[derive(Debug)]
pub struct Todo {
    /// The item's id: a UUID in hyphenated text form.
    pub id: String,
    pub title: String,
    pub description: Option<String>,
    pub status: TodoStatus,
    /// The id of the user who owns the item.
    pub user_id: String,
    pub created_at: Timestamp,
    pub updated_at: Timestamp,
}

/// The body of a request that makes a todo item.
#[derive(Debug)]
pub struct CreateTodoRequest {
    pub title: String,
    pub description: Option<String>,
    pub status: Option<TodoStatus>,
}

/// The changes that an update request asks for: each field that is present
/// replaces the stored one.
#[derive(Debug)]
pub struct UpdateTodoRequest {
    pub title: Option<String>,
    pub description: Option<String>,
    pub status: Option<TodoStatus>,
}

/// The text of a string that may be absent.
pub open spec fn optional_text(s: Option<String>) -> Option<Seq<char>> {
    match s {
        Some(s) => Some(s@),
        None => None,
    }
}

impl Todo {
    /// Whether this is the item that is made at the time `now` with the id
    /// `id` for the given title, description, status and owner, where no
    /// status means `Pending`.
    pub open spec fn is_new(
        &self,
        id: u128,
        now: Timestamp,
        title: Seq<char>,
        description: Option<Seq<char>>,
        status: Option<TodoStatus>,
        user_id: Seq<char>,
    ) -> bool {
        &&& self.id@ == uuid_hyphenated(id)
        &&& self.title@ == title
        &&& optional_text(self.description) == description
        &&& self.status == match status {
            Some(status) => status,
            None => TodoStatus::Pending,
        }
        &&& self.user_id@ == user_id
        &&& self.created_at == now
        &&& self.updated_at == now
    }

    /// The item that is made at the time `now` with the id `id`.
    pub fn with(
        id: u128,
        now: Timestamp,
        title: String,
        description: Option<String>,
        status: Option<TodoStatus>,
        user_id: String,
    ) -> (todo: Self)
        ensures
            todo.is_new(id, now, title@, optional_text(description), status, user_id@),
    {
        let status = match status {
            Some(status) => status,
            None => TodoStatus::default(),
        };
        Self {
            id: ident::hyphenated(id),
            title,
            description,
            status,
            user_id,
            created_at: now,
            updated_at: now,
        }
    }

    /// A new item, with a fresh random id, made now. The id is that of a
    /// random UUID and the time one that the clock can read; whatever they
    /// are, the item is the one that `with` makes of them.
    pub fn new(
        title: String,
        description: Option<String>,
        status: Option<TodoStatus>,
        user_id: String,
    ) -> (todo: Self)
        ensures
            exists|id: u128, now: Timestamp|
                {
                    &&& #[trigger] todo.is_new(
                        id,
                        now,
                        title@,
                        optional_text(description),
                        status,
                        user_id@,
                    )
                    &&& is_random_uuid(id)
                    &&& now.is_reading()
                },
    {
        let now = clock::now();
        let id = ident::fresh();
        let todo = Self::with(id, now, title, description, status, user_id);
        assert(todo.is_new(id, now, title@, optional_text(description), status, user_id@));
        todo
    }
}

} // verus!
