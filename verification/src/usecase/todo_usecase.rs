//! Decisions taken when a to-do item is updated.
use vstd::prelude::*;
use crate::domain::models::todo::{Todo, TodoView};
use crate::usecase::error::RepoError;

verus! {

/// The item `t` after an update that sets its title, description and
/// completion; its identifier and instants stay.
pub open spec fn todo_with_changes(t: TodoView, title: Seq<char>, description: Seq<char>, completed: bool) -> TodoView {
    TodoView { title, description: Some(description), completed, ..t }
}

/// The item `existing` with the update applied.
pub fn apply_todo_update(existing: Todo, title: String, description: String, completed: bool) -> (updated: Todo)
    ensures
        updated@ == todo_with_changes(existing@, title@, description@, completed),
        updated.title@ == title@,
        updated.description.deep_view() == Some(description@),
        updated.completed == completed,
        updated.id == existing.id,
        updated.created_at == existing.created_at,
        updated.updated_at == existing.updated_at,
{
    let mut todo = existing;
    todo.title = title;
    todo.description = Some(description);
    todo.completed = completed;
    todo
}

/// Decides an update from what looking the item up gave: a failed lookup
/// passes its error on, a missing item is `RowNotFound`, and a found item
/// comes back changed, ready to be stored.
pub fn plan_todo_update(
    found: Result<Option<Todo>, RepoError>,
    title: String,
    description: String,
    completed: bool,
) -> (r: Result<Todo, RepoError>)
    ensures
        match found {
            Err(e) => r == Err::<Todo, RepoError>(e),
            Ok(None) => r == Err::<Todo, RepoError>(RepoError::RowNotFound),
            Ok(Some(t)) => r matches Ok(u) && u@ == todo_with_changes(t@, title@, description@, completed),
        },
        r matches Ok(u) ==> {
            &&& found matches Ok(Some(t))
            &&& u.title@ == title@
            &&& u.description.deep_view() == Some(description@)
            &&& u.completed == completed
            &&& u.id == t.id
            &&& u.created_at == t.created_at
            &&& u.updated_at == t.updated_at
        },
{
    match found {
        Err(e) => Err(e),
        Ok(None) => Err(RepoError::RowNotFound),
        Ok(Some(todo)) => Ok(apply_todo_update(todo, title, description, completed)),
    }
}

/// An update keeps the item's identifier and its creation and update
/// instants.
pub proof fn lemma_todo_update_keeps_identity(t: TodoView, title: Seq<char>, description: Seq<char>, completed: bool)
    ensures
        todo_with_changes(t, title, description, completed).id == t.id,
        todo_with_changes(t, title, description, completed).created_at == t.created_at,
        todo_with_changes(t, title, description, completed).updated_at == t.updated_at,
{
}

/// After an update the item's title, description and completion are
/// exactly the values given, whatever their length.
pub proof fn lemma_todo_update_sets_given_fields(t: TodoView, title: Seq<char>, description: Seq<char>, completed: bool)
    ensures
        todo_with_changes(t, title, description, completed).title == title,
        todo_with_changes(t, title, description, completed).description == Some(description),
        todo_with_changes(t, title, description, completed).completed == completed,
{
}

/// Applying the same update twice gives what applying it once gives.
pub proof fn lemma_todo_update_idempotent(t: TodoView, title: Seq<char>, description: Seq<char>, completed: bool)
    ensures
        todo_with_changes(todo_with_changes(t, title, description, completed), title, description, completed)
            == todo_with_changes(t, title, description, completed),
{
}

/// Of two updates in a row only the second shows.
pub proof fn lemma_todo_update_last_wins(
    t: TodoView,
    title1: Seq<char>,
    description1: Seq<char>,
    completed1: bool,
    title2: Seq<char>,
    description2: Seq<char>,
    completed2: bool,
)
    ensures
        todo_with_changes(todo_with_changes(t, title1, description1, completed1), title2, description2, completed2)
            == todo_with_changes(t, title2, description2, completed2),
{
}

} // verus!
