pub mod todo_repository;
pub mod user_repository;
