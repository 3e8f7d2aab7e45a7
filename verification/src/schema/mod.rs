pub mod todo_schema;
pub mod user_schema;
