//! Todo items between the store's rows and the model. The queries
//! themselves are the caller's; what is read from a row and what an update
//! writes is decided here.

use crate::clock;
use crate::clock::Timestamp;
use crate::models::todo_model::{optional_text, Todo, TodoStatus, UpdateTodoRequest};
use crate::schema::user_schema::{text_or, time_or};
use vstd::prelude::*;

verus! {

/// A row of the table of todo items.
#[derive(Debug)]
pub struct TodoRow {
    pub id: String,
    pub title: String,
    pub description: Option<String>,
    pub status: String,
    pub user_id: String,
    pub created_at: Option<Timestamp>,
    pub updated_at: Option<Timestamp>,
}

/// Whether `todo` is what `row` holds, read at the time `now`.
pub open spec fn reads_row(todo: &Todo, row: &TodoRow, now: Timestamp) -> bool {
    &&& todo.id@ == row.id@
    &&& todo.title@ == row.title@
    &&& optional_text(todo.description) == optional_text(row.description)
    &&& todo.status == TodoStatus::of_text(row.status@)
    &&& todo.user_id@ == row.user_id@
    &&& todo.created_at == time_or(row.created_at, now)
    &&& todo.updated_at == time_or(row.updated_at, now)
}

/// The item that `row` holds, read at the time `now`: a status that the
/// model does not know reads as `Pending`, and an empty time column as
/// `now`.
pub fn todo_of_row_at(row: TodoRow, now: Timestamp) -> (todo: Todo)
    ensures
        reads_row(&todo, &row, now),
{
    let status = TodoStatus::from_text(row.status.as_str());
    let created_at = match row.created_at {
        Some(t) => t,
        None => now,
    };
    let updated_at = match row.updated_at {
        Some(t) => t,
        None => now,
    };
    Todo {
        id: row.id,
        title: row.title,
        description: row.description,
        status,
        user_id: row.user_id,
        created_at,
        updated_at,
    }
}

/// The item that `row` holds, read now. The clock reads a time that is not
/// before the epoch; whatever it reads, the item
/// is the one that `todo_of_row_at` reads at that time.
pub fn todo_of_row(row: TodoRow) -> (todo: Todo)
    ensures
        exists|now: Timestamp| now.is_reading() && #[trigger] reads_row(&todo, &row, now),
{
    let now = clock::now();
    let todo = todo_of_row_at(row, now);
    assert(reads_row(&todo, &row, now));
    todo
}

/// The values that an update writes to an item's row.
#[derive(Debug)]
pub struct TodoChange {
    pub title: String,
    pub description: Option<String>,
    pub status: TodoStatus,
}

/// What the update `update` writes to the row of `current`: each field of
/// the request that is present, and the stored value for each that is not.
/// A description cannot be taken away: a request without one keeps the
/// stored one.
pub fn todo_change(current: &Todo, update: &UpdateTodoRequest) -> (change: TodoChange)
    ensures
        change.title@ == text_or(update.title, current.title@),
        optional_text(change.description) == match update.description {
            Some(text) => Some(text@),
            None => optional_text(current.description),
        },
        change.status == match update.status {
            Some(status) => status,
            None => current.status,
        },
{
    TodoChange {
        title: match &update.title {
            Some(text) => text.clone(),
            None => current.title.clone(),
        },
        description: match &update.description {
            Some(text) => Some(text.clone()),
            None => match &current.description {
                Some(text) => Some(text.clone()),
                None => None,
            },
        },
        status: match update.status {
            Some(status) => status,
            None => current.status,
        },
    }
}

} // verus!
