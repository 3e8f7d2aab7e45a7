pub mod auth_handler;
pub mod reply;
pub mod todo_handler;
pub mod user_handler;
