pub mod error;
pub mod todo_usecase;
pub mod user_usecase;
