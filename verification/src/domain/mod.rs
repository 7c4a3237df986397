pub mod identity;
pub mod models;
pub mod password;
