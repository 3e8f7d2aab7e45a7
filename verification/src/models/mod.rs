pub mod auth_model;
pub mod todo_model;
pub mod user_model;
