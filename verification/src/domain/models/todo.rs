//! The to-do entity.
use vstd::prelude::*;
use crate::domain::identity::{chrono_timestamp_valid, jst_now_as_utc, new_uuid_v7, uuid_variant, uuid_version, Timestamp};

verus! {

/// A to-do item. `id` is the item's UUID as its 128-bit value.
#[derive(Debug, Clone)]
pub struct Todo {
    pub id: u128,
    pub title: String,
    pub description: Option<String>,
    pub completed: bool,
    pub created_at: Timestamp,
    pub updated_at: Timestamp,
}

/// A to-do item with its strings taken as character sequences.
pub struct TodoView {
    pub id: u128,
    pub title: Seq<char>,
    pub description: Option<Seq<char>>,
    pub completed: bool,
    pub created_at: Timestamp,
    pub updated_at: Timestamp,
}

impl View for Todo {
    type V = TodoView;

    open spec fn view(&self) -> TodoView {
        TodoView {
            id: self.id,
            title: self.title@,
            description: self.description.deep_view(),
            completed: self.completed,
            created_at: self.created_at,
            updated_at: self.updated_at,
        }
    }
}

/// The item that is made at instant `now` with identifier `id`: not
/// completed, described, and created and updated at the same instant.
pub open spec fn fresh_todo(id: u128, now: Timestamp, title: Seq<char>, description: Seq<char>) -> TodoView {
    TodoView {
        id,
        title,
        description: Some(description),
        completed: false,
        created_at: now,
        updated_at: now,
    }
}

impl Todo {
    /// A new, open to-do item with a fresh version 7 UUID, created and
    /// updated now.
    pub fn new(title: String, description: String) -> (todo: Todo)
        ensures
            todo@ == fresh_todo(todo.id, todo.created_at, title@, description@),
            uuid_version(todo.id) == 7,
            uuid_variant(todo.id) == 2,
            chrono_timestamp_valid(todo.created_at.secs, todo.created_at.nanos),
            todo.title@ == title@,
            todo.description.deep_view() == Some(description@),
            !todo.completed,
            todo.created_at == todo.updated_at,
    {
        let now = jst_now_as_utc();
        let id = new_uuid_v7();
        Todo::with_identity(id, now, title, description)
    }

    /// The new item with the given identifier and creation instant.
    pub fn with_identity(id: u128, now: Timestamp, title: String, description: String) -> (todo: Todo)
        ensures
            todo@ == fresh_todo(id, now, title@, description@),
            todo.id == id,
            todo.title@ == title@,
            todo.description.deep_view() == Some(description@),
            !todo.completed,
            todo.created_at == now,
            todo.updated_at == now,
    {
        Todo {
            id,
            title,
            description: Some(description),
            completed: false,
            created_at: now,
            updated_at: now,
        }
    }
}

} // verus!
