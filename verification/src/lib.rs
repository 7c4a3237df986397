//! Domain logic of a small to-do and user service: entities, password
//! hashing, the decisions taken when an entity is updated, and the HTTP
//! answers given for each outcome of a user request.
pub mod domain;
pub mod infrastructure;
pub mod presentation;
pub mod usecase;
