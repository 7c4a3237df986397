pub mod todo;
pub mod user;
