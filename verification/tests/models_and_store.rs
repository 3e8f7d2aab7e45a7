use todo_api::clock::Timestamp;
use todo_api::handlers::reply::{caller, parse_uuid, Reply, StoreFailure};
use todo_api::handlers::todo_handler::{
    created_todo, deleted_todo, found_todo, listed_todos, new_todo, new_todo_with, updated_todo,
};
use todo_api::handlers::user_handler::{
    deleted_user, found_user, listed_users, to_responses, update_user_current_fetched,
    update_user_email_checked, update_user_start, updated_user, UpdateUserStep,
};
use todo_api::middleware::auth_middleware::{AuthenticatedUser, RequestContext};
use todo_api::models::todo_model::{CreateTodoRequest, Todo, TodoStatus, UpdateTodoRequest};
use todo_api::models::user_model::{UpdateUserRequest, User, UserResponse, UserRole};
use todo_api::schema::todo_schema::{todo_change, todo_of_row, todo_of_row_at, TodoRow};
use todo_api::schema::user_schema::{user_change, user_of_row, user_of_row_at, UserRow};
use todo_api::text::{push_decimal, same};

const ANN_ID: u128 = 0x550e8400_e29b_41d4_a716_446655440000;
const T0: Timestamp = Timestamp { seconds: 1_700_000_000, nanos: 123 };
const T1: Timestamp = Timestamp { seconds: 1_700_000_500, nanos: 0 };

fn ann() -> User {
    User::with(
        ANN_ID,
        T0,
        "Ann".to_string(),
        "ann@example.com".to_string(),
        "hash".to_string(),
        Some(UserRole::Admin),
    )
}

fn refusal<T>(reply: Reply<T>) -> (u16, String) {
    match reply {
        Reply::Refused { status, message } => (status, message),
        _ => panic!("not a refusal"),
    }
}

fn shown(reply: Reply<UserResponse>) -> UserResponse {
    match reply {
        Reply::Content { status, body } => {
            assert_eq!(status, 200);
            body
        }
        _ => panic!("no content"),
    }
}

#[test]
fn roles_have_names() {
    assert_eq!(UserRole::User.as_str(), "user");
    assert_eq!(UserRole::Admin.as_str(), "admin");
    assert_eq!(UserRole::from_text("user"), UserRole::User);
    assert_eq!(UserRole::from_text("admin"), UserRole::Admin);
    assert_eq!(UserRole::from_text("Admin"), UserRole::User);
    assert_eq!(UserRole::from_text("root"), UserRole::User);
    assert_eq!(UserRole::from_text(""), UserRole::User);
    assert_eq!(UserRole::default(), UserRole::User);
}

#[test]
fn statuses_have_names() {
    assert_eq!(TodoStatus::Pending.as_str(), "pending");
    assert_eq!(TodoStatus::InProcess.as_str(), "in_process");
    assert_eq!(TodoStatus::Completed.as_str(), "completed");
    assert_eq!(TodoStatus::from_text("pending"), TodoStatus::Pending);
    assert_eq!(TodoStatus::from_text("in_process"), TodoStatus::InProcess);
    assert_eq!(TodoStatus::from_text("completed"), TodoStatus::Completed);
    assert_eq!(TodoStatus::from_text("done"), TodoStatus::Pending);
    assert_eq!(TodoStatus::from_text("in process"), TodoStatus::Pending);
    assert_eq!(TodoStatus::default(), TodoStatus::Pending);
}

#[test]
fn same_compares_texts() {
    assert!(same("", ""));
    assert!(same("admin", "admin"));
    assert!(!same("admin", "admim"));
    assert!(!same("admin", "admi"));
    assert!(!same("admin", "admin "));
    assert!(same("\u{e9}t\u{e9}", "\u{e9}t\u{e9}"));
    assert!(!same("\u{e9}", "e"));
}

#[test]
fn decimal_is_appended() {
    let mut text = "n=".to_string();
    push_decimal(&mut text, 0);
    assert_eq!(text, "n=0");
    push_decimal(&mut text, 1203);
    assert_eq!(text, "n=01203");
    let mut max = String::new();
    push_decimal(&mut max, usize::MAX);
    assert_eq!(max, usize::MAX.to_string());
}

#[test]
fn a_user_is_made_with_the_role_given() {
    let user = ann();
    assert_eq!(user.id, "550e8400-e29b-41d4-a716-446655440000");
    assert_eq!(user.name, "Ann");
    assert_eq!(user.email, "ann@example.com");
    assert_eq!(user.password, "hash");
    assert_eq!(user.role, UserRole::Admin);
    assert_eq!(user.created_at, T0);
    assert_eq!(user.updated_at, T0);
}

#[test]
fn a_user_without_role_is_a_user() {
    let user = User::with(0, T0, "n".to_string(), "e".to_string(), "p".to_string(), None);
    assert_eq!(user.role, UserRole::User);
    assert_eq!(user.id, "00000000-0000-0000-0000-000000000000");
    let max = User::with(u128::MAX, T0, "n".to_string(), "e".to_string(), "p".to_string(), None);
    assert_eq!(max.id, "ffffffff-ffff-ffff-ffff-ffffffffffff");
}

#[test]
fn a_new_user_has_a_fresh_id() {
    let first = User::new("n".to_string(), "e".to_string(), "p".to_string(), None);
    let second = User::new("n".to_string(), "e".to_string(), "p".to_string(), Some(UserRole::Admin));
    assert_ne!(first.id, second.id);
    assert!(parse_uuid::<()>(&first.id).is_ok());
    assert_eq!(first.role, UserRole::User);
    assert_eq!(second.role, UserRole::Admin);
    assert_eq!(first.created_at, first.updated_at);
    assert!(first.created_at.seconds > 1_600_000_000);
    assert!(first.created_at.nanos < 2_000_000_000);
    assert_eq!(first.name, "n");
    assert_eq!(first.email, "e");
    assert_eq!(first.password, "p");
}

#[test]
fn a_response_hides_the_password() {
    let shown = ann().to_response();
    assert_eq!(shown.id, "550e8400-e29b-41d4-a716-446655440000");
    assert_eq!(shown.name, "Ann");
    assert_eq!(shown.email, "ann@example.com");
    assert_eq!(shown.role, UserRole::Admin);
    assert_eq!(shown.created_at, T0);
    assert_eq!(shown.updated_at, T0);
}

#[test]
fn a_todo_is_made_with_the_status_given() {
    let todo = Todo::with(
        ANN_ID,
        T0,
        "write".to_string(),
        Some("a letter".to_string()),
        Some(TodoStatus::InProcess),
        "owner".to_string(),
    );
    assert_eq!(todo.id, "550e8400-e29b-41d4-a716-446655440000");
    assert_eq!(todo.title, "write");
    assert_eq!(todo.description, Some("a letter".to_string()));
    assert_eq!(todo.status, TodoStatus::InProcess);
    assert_eq!(todo.user_id, "owner");
    assert_eq!(todo.created_at, T0);
    assert_eq!(todo.updated_at, T0);
    let plain = Todo::with(1, T1, "t".to_string(), None, None, "o".to_string());
    assert_eq!(plain.status, TodoStatus::Pending);
    assert_eq!(plain.description, None);
}

#[test]
fn a_new_todo_has_a_fresh_id() {
    let first = Todo::new("t".to_string(), None, None, "o".to_string());
    let second = Todo::new("t".to_string(), None, Some(TodoStatus::Completed), "o".to_string());
    assert_ne!(first.id, second.id);
    assert!(parse_uuid::<()>(&first.id).is_ok());
    assert_eq!(first.status, TodoStatus::Pending);
    assert_eq!(second.status, TodoStatus::Completed);
    assert_eq!(first.created_at, first.updated_at);
    assert_eq!(first.user_id, "o");
}

fn ann_row(role: &str, created: Option<Timestamp>, updated: Option<Timestamp>) -> UserRow {
    UserRow {
        id: "id-1".to_string(),
        name: "Ann".to_string(),
        email: "ann@example.com".to_string(),
        password: "hash".to_string(),
        role: role.to_string(),
        created_at: created,
        updated_at: updated,
    }
}

#[test]
fn a_user_row_is_read() {
    let user = user_of_row_at(ann_row("admin", Some(T0), Some(T1)), Timestamp { seconds: 9, nanos: 9 });
    assert_eq!(user.id, "id-1");
    assert_eq!(user.name, "Ann");
    assert_eq!(user.email, "ann@example.com");
    assert_eq!(user.password, "hash");
    assert_eq!(user.role, UserRole::Admin);
    assert_eq!(user.created_at, T0);
    assert_eq!(user.updated_at, T1);
}

#[test]
fn a_user_row_with_gaps_is_read() {
    let now = Timestamp { seconds: 9, nanos: 9 };
    let user = user_of_row_at(ann_row("owner", None, Some(T1)), now);
    assert_eq!(user.role, UserRole::User);
    assert_eq!(user.created_at, now);
    assert_eq!(user.updated_at, T1);
    let other = user_of_row_at(ann_row("user", Some(T0), None), now);
    assert_eq!(other.created_at, T0);
    assert_eq!(other.updated_at, now);
    let read = user_of_row(ann_row("admin", None, None));
    assert_eq!(read.created_at, read.updated_at);
    assert!(read.created_at.seconds > 1_600_000_000);
    assert_eq!(read.role, UserRole::Admin);
}

#[test]
fn a_user_update_keeps_what_is_not_given() {
    let none = UpdateUserRequest { name: None, email: None, password: None, role: None };
    let kept = user_change(&ann(), &none);
    assert_eq!(kept.name, "Ann");
    assert_eq!(kept.email, "ann@example.com");
    assert_eq!(kept.password, "hash");
    assert_eq!(kept.role, UserRole::Admin);
    let all = UpdateUserRequest {
        name: Some("Anna".to_string()),
        email: Some("anna@example.com".to_string()),
        password: Some("other".to_string()),
        role: Some(UserRole::User),
    };
    let changed = user_change(&ann(), &all);
    assert_eq!(changed.name, "Anna");
    assert_eq!(changed.email, "anna@example.com");
    assert_eq!(changed.password, "other");
    assert_eq!(changed.role, UserRole::User);
    let some = UpdateUserRequest { name: None, email: Some("x@y".to_string()), password: None, role: None };
    let mixed = user_change(&ann(), &some);
    assert_eq!(mixed.name, "Ann");
    assert_eq!(mixed.email, "x@y");
}

fn todo_row(status: &str, description: Option<&str>, created: Option<Timestamp>) -> TodoRow {
    TodoRow {
        id: "t-1".to_string(),
        title: "write".to_string(),
        description: description.map(|d| d.to_string()),
        status: status.to_string(),
        user_id: "u-1".to_string(),
        created_at: created,
        updated_at: None,
    }
}

#[test]
fn a_todo_row_is_read() {
    let now = Timestamp { seconds: 9, nanos: 9 };
    let todo = todo_of_row_at(todo_row("completed", Some("d"), Some(T0)), now);
    assert_eq!(todo.id, "t-1");
    assert_eq!(todo.title, "write");
    assert_eq!(todo.description, Some("d".to_string()));
    assert_eq!(todo.status, TodoStatus::Completed);
    assert_eq!(todo.user_id, "u-1");
    assert_eq!(todo.created_at, T0);
    assert_eq!(todo.updated_at, now);
    let odd = todo_of_row_at(todo_row("paused", None, None), now);
    assert_eq!(odd.status, TodoStatus::Pending);
    assert_eq!(odd.description, None);
    assert_eq!(odd.created_at, now);
    let read = todo_of_row(todo_row("in_process", None, None));
    assert_eq!(read.status, TodoStatus::InProcess);
    assert_eq!(read.created_at, read.updated_at);
}

#[test]
fn a_todo_update_keeps_what_is_not_given() {
    let current = Todo::with(
        1,
        T0,
        "write".to_string(),
        Some("a letter".to_string()),
        Some(TodoStatus::InProcess),
        "o".to_string(),
    );
    let none = UpdateTodoRequest { title: None, description: None, status: None };
    let kept = todo_change(&current, &none);
    assert_eq!(kept.title, "write");
    assert_eq!(kept.description, Some("a letter".to_string()));
    assert_eq!(kept.status, TodoStatus::InProcess);
    let all = UpdateTodoRequest {
        title: Some("read".to_string()),
        description: Some("a book".to_string()),
        status: Some(TodoStatus::Completed),
    };
    let changed = todo_change(&current, &all);
    assert_eq!(changed.title, "read");
    assert_eq!(changed.description, Some("a book".to_string()));
    assert_eq!(changed.status, TodoStatus::Completed);
    let bare = Todo::with(1, T0, "t".to_string(), None, None, "o".to_string());
    assert_eq!(todo_change(&bare, &none).description, None);
}

#[test]
fn a_path_id_must_be_a_uuid() {
    assert_eq!(
        parse_uuid::<()>("550e8400-e29b-41d4-a716-446655440000").unwrap(),
        ANN_ID
    );
    assert_eq!(parse_uuid::<()>("550e8400e29b41d4a716446655440000").unwrap(), ANN_ID);
    assert_eq!(
        parse_uuid::<()>("550E8400-E29B-41D4-A716-446655440000").unwrap(),
        ANN_ID
    );
    for text in ["", "42", "550e8400-e29b-41d4-a716-44665544000", "not-a-uuid"] {
        let reply = parse_uuid::<()>(text).unwrap_err();
        assert_eq!(refusal(reply), (400, "Invalid UUID format".to_string()));
    }
}

#[test]
fn a_handler_finds_its_caller() {
    let user = AuthenticatedUser { user_id: 7, email: "e".to_string(), role: "user".to_string() };
    let context = RequestContext { identity: Some(user) };
    let found = caller::<()>(&context).unwrap();
    assert_eq!(found.user_id, 7);
    assert_eq!(found.email, "e");
    assert_eq!(found.role, "user");
    let reply = caller::<()>(&RequestContext::new()).unwrap_err();
    assert_eq!(refusal(reply), (401, "User not authenticated".to_string()));
}

#[test]
fn one_user_is_answered() {
    let body = shown(found_user(Ok(Some(ann()))));
    assert_eq!(body.name, "Ann");
    assert_eq!(body.role, UserRole::Admin);
    assert_eq!(refusal(found_user(Ok(None))), (404, "User not found".to_string()));
    assert_eq!(refusal(found_user(Err(StoreFailure))), (500, "Error fetching user".to_string()));
}

#[test]
fn all_users_are_answered_in_order() {
    let bob = User::with(2, T1, "Bob".to_string(), "bob@example.com".to_string(), "h".to_string(), None);
    let list = to_responses(&vec![ann(), bob]);
    assert_eq!(list.len(), 2);
    assert_eq!(list[0].name, "Ann");
    assert_eq!(list[1].name, "Bob");
    assert_eq!(list[1].role, UserRole::User);
    match listed_users(Ok(vec![ann()])) {
        Reply::Content { status, body } => {
            assert_eq!(status, 200);
            assert_eq!(body.len(), 1);
            assert_eq!(body[0].email, "ann@example.com");
        }
        _ => panic!("no content"),
    }
    assert_eq!(listed_users(Ok(vec![])).status(), 200);
    assert_eq!(refusal(listed_users(Err(StoreFailure))), (500, "Error fetching users".to_string()));
}

#[test]
fn an_update_asks_about_a_new_email_first() {
    let plain = UpdateUserRequest { name: Some("A".to_string()), email: None, password: None, role: None };
    assert!(matches!(update_user_start(&plain), UpdateUserStep::Write));
    let email = UpdateUserRequest { name: None, email: Some("x@y".to_string()), password: None, role: None };
    assert!(matches!(update_user_start(&email), UpdateUserStep::CheckEmail));
}

#[test]
fn an_update_to_a_free_email_is_written() {
    assert!(matches!(update_user_email_checked(Ok(false)), UpdateUserStep::Write));
    assert!(matches!(update_user_email_checked(Ok(true)), UpdateUserStep::FetchCurrent));
    match update_user_email_checked(Err(StoreFailure)) {
        UpdateUserStep::Answer(reply) => {
            assert_eq!(refusal(reply), (500, "Error checking email".to_string()))
        }
        _ => panic!("no answer"),
    }
}

#[test]
fn an_update_to_the_email_of_another_is_a_conflict() {
    assert!(matches!(
        update_user_current_fetched("ann@example.com", Ok(Some(ann()))),
        UpdateUserStep::Write
    ));
    match update_user_current_fetched("bob@example.com", Ok(Some(ann()))) {
        UpdateUserStep::Answer(reply) => {
            assert_eq!(refusal(reply), (409, "Email already exists".to_string()))
        }
        _ => panic!("no answer"),
    }
    match update_user_current_fetched("ann@example.com", Ok(None)) {
        UpdateUserStep::Answer(reply) => {
            assert_eq!(refusal(reply), (404, "User not found".to_string()))
        }
        _ => panic!("no answer"),
    }
    match update_user_current_fetched("ann@example.com", Err(StoreFailure)) {
        UpdateUserStep::Answer(reply) => {
            assert_eq!(refusal(reply), (500, "Error checking user".to_string()))
        }
        _ => panic!("no answer"),
    }
}

#[test]
fn an_updated_user_is_answered() {
    assert_eq!(shown(updated_user(Ok(Some(ann())))).email, "ann@example.com");
    assert_eq!(refusal(updated_user(Ok(None))), (404, "User not found".to_string()));
    assert_eq!(refusal(updated_user(Err(StoreFailure))), (500, "Error updating user".to_string()));
}

#[test]
fn a_deleted_user_is_answered() {
    assert!(matches!(deleted_user(Ok(true)), Reply::NoContent));
    assert_eq!(deleted_user(Ok(true)).status(), 204);
    assert_eq!(refusal(deleted_user(Ok(false))), (404, "User not found".to_string()));
    assert_eq!(refusal(deleted_user(Err(StoreFailure))), (500, "Error deleting user".to_string()));
}

fn letter() -> Todo {
    Todo::with(1, T0, "write".to_string(), None, None, "o".to_string())
}

#[test]
fn a_todo_is_made_for_its_caller() {
    let owner = AuthenticatedUser { user_id: ANN_ID, email: "e".to_string(), role: "user".to_string() };
    let data = CreateTodoRequest {
        title: "write".to_string(),
        description: Some("a letter".to_string()),
        status: Some(TodoStatus::Completed),
    };
    let todo = new_todo_with(&owner, &data, 3, T1);
    assert_eq!(todo.id, "00000000-0000-0000-0000-000000000003");
    assert_eq!(todo.title, "write");
    assert_eq!(todo.description, Some("a letter".to_string()));
    assert_eq!(todo.status, TodoStatus::Completed);
    assert_eq!(todo.user_id, "550e8400-e29b-41d4-a716-446655440000");
    assert_eq!(todo.created_at, T1);
    assert_eq!(todo.updated_at, T1);
    let fresh = new_todo(&owner, &data);
    assert_eq!(fresh.user_id, "550e8400-e29b-41d4-a716-446655440000");
    assert_eq!(fresh.title, "write");
    assert_ne!(fresh.id, new_todo(&owner, &data).id);
}

#[test]
fn a_made_todo_is_answered() {
    match created_todo(letter(), Ok(())) {
        Reply::Content { status, body } => {
            assert_eq!(status, 201);
            assert_eq!(body.title, "write");
        }
        _ => panic!("no content"),
    }
    assert_eq!(
        refusal(created_todo(letter(), Err(StoreFailure))),
        (500, "Error creating todo".to_string())
    );
}

#[test]
fn todos_are_answered() {
    match listed_todos(Ok(vec![letter(), letter()])) {
        Reply::Content { status, body } => {
            assert_eq!(status, 200);
            assert_eq!(body.len(), 2);
        }
        _ => panic!("no content"),
    }
    assert_eq!(refusal(listed_todos(Err(StoreFailure))), (500, "Error fetching todos".to_string()));
    assert_eq!(found_todo(Ok(Some(letter()))).status(), 200);
    assert_eq!(refusal(found_todo(Ok(None))), (404, "Todo not found".to_string()));
    assert_eq!(refusal(found_todo(Err(StoreFailure))), (500, "Error fetching todo".to_string()));
    assert_eq!(updated_todo(Ok(Some(letter()))).status(), 200);
    assert_eq!(refusal(updated_todo(Ok(None))), (404, "Todo not found".to_string()));
    assert_eq!(refusal(updated_todo(Err(StoreFailure))), (500, "Error updating todo".to_string()));
    assert!(matches!(deleted_todo(Ok(true)), Reply::NoContent));
    assert_eq!(refusal(deleted_todo(Ok(false))), (404, "Todo not found".to_string()));
    assert_eq!(refusal(deleted_todo(Err(StoreFailure))), (500, "Error deleting todo".to_string()));
}

#[test]
fn a_response_is_made_from_a_user() {
    let shown = UserResponse::from(ann());
    assert_eq!(shown.id, "550e8400-e29b-41d4-a716-446655440000");
    assert_eq!(shown.name, "Ann");
    assert_eq!(shown.email, "ann@example.com");
    assert_eq!(shown.role, UserRole::Admin);
    assert_eq!(shown.created_at, T0);
    assert_eq!(shown.updated_at, T0);
}
