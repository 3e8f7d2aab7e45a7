//! The decisions of the todo routes. The caller talks to the store and
//! hands each outcome in; what to store and what to answer is decided
//! here.

use crate::clock;
use crate::clock::Timestamp;
use crate::handlers::reply::{Reply, StoreFailure};
use crate::ident;
use crate::ident::{is_random_uuid, uuid_hyphenated};
use crate::middleware::auth_middleware::AuthenticatedUser;
use crate::models::todo_model::{optional_text, CreateTodoRequest, Todo};
use vstd::prelude::*;

verus! {

fn copy_text(text: &Option<String>) -> (copy: Option<String>)
    ensures
        optional_text(copy) == optional_text(*text),
{
    match text {
        Some(text) => Some(text.clone()),
        None => None,
    }
}

/// Whether `todo` is the item that `data` asks for, owned by `owner`, with
/// the id `id`, made at the time `now`.
pub open spec fn is_asked_for(
    todo: &Todo,
    owner: &AuthenticatedUser,
    data: &CreateTodoRequest,
    id: u128,
    now: Timestamp,
) -> bool {
    todo.is_new(
        id,
        now,
        data.title@,
        optional_text(data.description),
        data.status,
        uuid_hyphenated(owner.user_id),
    )
}

/// The item that `data` asks for, owned by the caller `owner`, with the id
/// `id`, made at the time `now`.
pub fn new_todo_with(owner: &AuthenticatedUser, data: &CreateTodoRequest, id: u128, now: Timestamp) -> (todo:
    Todo)
    ensures
        is_asked_for(&todo, owner, data, id, now),
{
    Todo::with(
        id,
        now,
        data.title.clone(),
        copy_text(&data.description),
        data.status,
        ident::hyphenated(owner.user_id),
    )
}

/// The item that `data` asks for, owned by the caller `owner`, with a
/// fresh random id, made now. The id is that of a random UUID and the time
/// one that the clock can read; whatever they are, the item is the one that
/// `new_todo_with` makes of them.
pub fn new_todo(owner: &AuthenticatedUser, data: &CreateTodoRequest) -> (todo: Todo)
    ensures
        exists|id: u128, now: Timestamp|
            {
                &&& #[trigger] is_asked_for(&todo, owner, data, id, now)
                &&& is_random_uuid(id)
                &&& now.is_reading()
            },
{
    let now = clock::now();
    let id = ident::fresh();
    let todo = new_todo_with(owner, data, id, now);
    assert(is_asked_for(&todo, owner, data, id, now));
    todo
}

/// Answers the making of `todo` with what the store did: 201 with the
/// item where it was stored, 500 where the store failed.
pub fn created_todo(todo: Todo, stored: Result<(), StoreFailure>) -> (reply: Reply<Todo>)
    ensures
        match stored {
            Ok(_) => reply == (Reply::Content { status: 201, body: todo }),
            Err(_) => reply.refuses(500, "Error creating todo"@),
        },
{
    match stored {
        Ok(_) => Reply::Content { status: 201, body: todo },
        Err(_) => Reply::refuse(500, "Error creating todo"),
    }
}

/// Answers a request for the caller's items with what the store found: the
/// items in the store's order, or 500 where the store failed.
pub fn listed_todos(found: Result<Vec<Todo>, StoreFailure>) -> (reply: Reply<Vec<Todo>>)
    ensures
        match found {
            Ok(todos) => reply == (Reply::Content { status: 200, body: todos }),
            Err(_) => reply.refuses(500, "Error fetching todos"@),
        },
{
    match found {
        Ok(todos) => Reply::Content { status: 200, body: todos },
        Err(_) => Reply::refuse(500, "Error fetching todos"),
    }
}

/// Answers a request for one item with what the store found: the item,
/// 404 where there is none, 500 where the store failed.
pub fn found_todo(lookup: Result<Option<Todo>, StoreFailure>) -> (reply: Reply<Todo>)
    ensures
        match lookup {
            Ok(Some(todo)) => reply == (Reply::Content { status: 200, body: todo }),
            Ok(None) => reply.refuses(404, "Todo not found"@),
            Err(_) => reply.refuses(500, "Error fetching todo"@),
        },
{
    match lookup {
        Ok(Some(todo)) => Reply::Content { status: 200, body: todo },
        Ok(None) => Reply::refuse(404, "Todo not found"),
        Err(_) => Reply::refuse(500, "Error fetching todo"),
    }
}

/// Answers an update with what the store wrote: the item as it stands
/// now, 404 where there is none, 500 where the store failed.
pub fn updated_todo(written: Result<Option<Todo>, StoreFailure>) -> (reply: Reply<Todo>)
    ensures
        match written {
            Ok(Some(todo)) => reply == (Reply::Content { status: 200, body: todo }),
            Ok(None) => reply.refuses(404, "Todo not found"@),
            Err(_) => reply.refuses(500, "Error updating todo"@),
        },
{
    match written {
        Ok(Some(todo)) => Reply::Content { status: 200, body: todo },
        Ok(None) => Reply::refuse(404, "Todo not found"),
        Err(_) => Reply::refuse(500, "Error updating todo"),
    }
}

/// Answers a deletion with what the store did: 204 where an item was
/// deleted, 404 where there was none, 500 where the store failed.
pub fn deleted_todo(deleted: Result<bool, StoreFailure>) -> (reply: Reply<()>)
    ensures
        match deleted {
            Ok(true) => reply is NoContent,
            Ok(false) => reply.refuses(404, "Todo not found"@),
            Err(_) => reply.refuses(500, "Error deleting todo"@),
        },
{
    match deleted {
        Ok(true) => Reply::NoContent,
        Ok(false) => Reply::refuse(404, "Todo not found"),
        Err(_) => Reply::refuse(500, "Error deleting todo"),
    }
}

} // verus!
