//! Decisions taken when a user is updated.
use vstd::prelude::*;
use crate::domain::models::user::{User, UserView};
use crate::usecase::error::RepoError;

verus! {

/// `change` where there is one, else `current`.
pub open spec fn changed_or(change: Option<Seq<char>>, current: Seq<char>) -> Seq<char> {
    match change {
        Some(v) => v,
        None => current,
    }
}

/// The user `u` after an update: each field that the update gives takes
/// the given value, each other field stays, as do the identifier and the
/// instants.
pub open spec fn user_with_changes(
    u: UserView,
    name: Option<Seq<char>>,
    nickname: Option<Seq<char>>,
    email: Option<Seq<char>>,
    hashed_password: Option<Seq<char>>,
) -> UserView {
    UserView {
        name: changed_or(name, u.name),
        nickname: changed_or(nickname, u.nickname),
        email: changed_or(email, u.email),
        hashed_password: changed_or(hashed_password, u.hashed_password),
        ..u
    }
}

/// The user `existing` with the update applied.
pub fn apply_user_update(
    existing: User,
    name: Option<String>,
    nickname: Option<String>,
    email: Option<String>,
    hashed_password: Option<String>,
) -> (updated: User)
    ensures
        updated@ == user_with_changes(
            existing@,
            name.deep_view(),
            nickname.deep_view(),
            email.deep_view(),
            hashed_password.deep_view(),
        ),
        name matches Some(n) ==> updated.name@ == n@,
        name is None ==> updated.name@ == existing.name@,
        nickname matches Some(n) ==> updated.nickname@ == n@,
        nickname is None ==> updated.nickname@ == existing.nickname@,
        email matches Some(e) ==> updated.email@ == e@,
        email is None ==> updated.email@ == existing.email@,
        hashed_password matches Some(p) ==> updated.hashed_password@ == p@,
        hashed_password is None ==> updated.hashed_password@ == existing.hashed_password@,
        updated.id == existing.id,
        updated.created_at == existing.created_at,
        updated.updated_at == existing.updated_at,
{
    let mut user = existing;
    if let Some(n) = name {
        user.name = n;
    }
    if let Some(nn) = nickname {
        user.nickname = nn;
    }
    if let Some(e) = email {
        user.email = e;
    }
    if let Some(p) = hashed_password {
        user.hashed_password = p;
    }
    user
}

/// Decides an update from what looking the user up gave: a failed lookup
/// passes its error on, a missing user is `RowNotFound`, and a found user
/// comes back changed, ready to be stored.
pub fn plan_user_update(
    found: Result<Option<User>, RepoError>,
    name: Option<String>,
    nickname: Option<String>,
    email: Option<String>,
    hashed_password: Option<String>,
) -> (r: Result<User, RepoError>)
    ensures
        match found {
            Err(e) => r == Err::<User, RepoError>(e),
            Ok(None) => r == Err::<User, RepoError>(RepoError::RowNotFound),
            Ok(Some(u)) => r matches Ok(v) && v@ == user_with_changes(
                u@,
                name.deep_view(),
                nickname.deep_view(),
                email.deep_view(),
                hashed_password.deep_view(),
            ),
        },
        r matches Ok(v) ==> {
            &&& found matches Ok(Some(u))
            &&& v.id == u.id
            &&& v.created_at == u.created_at
            &&& v.updated_at == u.updated_at
            &&& v.name@ == (match name { Some(n) => n@, None => u.name@ })
            &&& v.nickname@ == (match nickname { Some(n) => n@, None => u.nickname@ })
            &&& v.email@ == (match email { Some(e) => e@, None => u.email@ })
            &&& v.hashed_password@ == (match hashed_password { Some(p) => p@, None => u.hashed_password@ })
        },
{
    match found {
        Err(e) => Err(e),
        Ok(None) => Err(RepoError::RowNotFound),
        Ok(Some(user)) => Ok(apply_user_update(user, name, nickname, email, hashed_password)),
    }
}

/// Each field that an update gives is, afterwards, exactly the value given,
/// whatever its length; each field it does not give keeps its value.
pub proof fn lemma_user_update_sets_given_fields(
    u: UserView,
    name: Option<Seq<char>>,
    nickname: Option<Seq<char>>,
    email: Option<Seq<char>>,
    hashed_password: Option<Seq<char>>,
)
    ensures
        name matches Some(n) ==> user_with_changes(u, name, nickname, email, hashed_password).name == n,
        name is None ==> user_with_changes(u, name, nickname, email, hashed_password).name == u.name,
        nickname matches Some(n) ==> user_with_changes(u, name, nickname, email, hashed_password).nickname == n,
        nickname is None ==> user_with_changes(u, name, nickname, email, hashed_password).nickname == u.nickname,
        email matches Some(e) ==> user_with_changes(u, name, nickname, email, hashed_password).email == e,
        email is None ==> user_with_changes(u, name, nickname, email, hashed_password).email == u.email,
        hashed_password matches Some(p) ==> user_with_changes(u, name, nickname, email, hashed_password).hashed_password == p,
        hashed_password is None ==> user_with_changes(u, name, nickname, email, hashed_password).hashed_password
            == u.hashed_password,
{
}

/// An update that gives no field leaves the user as it was.
pub proof fn lemma_user_update_without_changes(u: UserView)
    ensures
        user_with_changes(u, None, None, None, None) == u,
{
}

/// An update keeps the user's identifier and its creation and update
/// instants.
pub proof fn lemma_user_update_keeps_identity(
    u: UserView,
    name: Option<Seq<char>>,
    nickname: Option<Seq<char>>,
    email: Option<Seq<char>>,
    hashed_password: Option<Seq<char>>,
)
    ensures
        user_with_changes(u, name, nickname, email, hashed_password).id == u.id,
        user_with_changes(u, name, nickname, email, hashed_password).created_at == u.created_at,
        user_with_changes(u, name, nickname, email, hashed_password).updated_at == u.updated_at,
{
}

/// Applying the same update twice gives what applying it once gives.
pub proof fn lemma_user_update_idempotent(
    u: UserView,
    name: Option<Seq<char>>,
    nickname: Option<Seq<char>>,
    email: Option<Seq<char>>,
    hashed_password: Option<Seq<char>>,
)
    ensures
        user_with_changes(user_with_changes(u, name, nickname, email, hashed_password), name, nickname, email, hashed_password)
            == user_with_changes(u, name, nickname, email, hashed_password),
{
}

/// The first of two given values, else the second.
pub open spec fn either(first: Option<Seq<char>>, second: Option<Seq<char>>) -> Option<Seq<char>> {
    match first {
        Some(v) => Some(v),
        None => second,
    }
}

/// Two updates in a row are one update in which each field of the second
/// wins over the same field of the first.
pub proof fn lemma_user_updates_compose(
    u: UserView,
    name1: Option<Seq<char>>,
    nickname1: Option<Seq<char>>,
    email1: Option<Seq<char>>,
    hashed_password1: Option<Seq<char>>,
    name2: Option<Seq<char>>,
    nickname2: Option<Seq<char>>,
    email2: Option<Seq<char>>,
    hashed_password2: Option<Seq<char>>,
)
    ensures
        user_with_changes(
            user_with_changes(u, name1, nickname1, email1, hashed_password1),
            name2,
            nickname2,
            email2,
            hashed_password2,
        ) == user_with_changes(
            u,
            either(name2, name1),
            either(nickname2, nickname1),
            either(email2, email1),
            either(hashed_password2, hashed_password1),
        ),
{
}

} // verus!
