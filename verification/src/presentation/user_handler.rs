//! The answers of the user endpoints, decided from what the service gave.
use vstd::prelude::*;
use crate::domain::models::user::{User, UserView};
use crate::domain::password::{hash, is_argon2_phc_of, is_default_argon2id_phc, password_check, utf8_len, MAX_PASSWORD_BYTES};
use crate::usecase::error::RepoError;

verus! {

pub const STATUS_OK: u16 = 200;
pub const STATUS_CREATED: u16 = 201;
pub const STATUS_NO_CONTENT: u16 = 204;
pub const STATUS_NOT_FOUND: u16 = 404;
pub const STATUS_INTERNAL_SERVER_ERROR: u16 = 500;

/// What the endpoints show of a user: everything but its instants.
#[derive(Debug, Clone)]
pub struct UserResponse {
    pub id: u128,
    pub name: String,
    pub nickname: String,
    pub email: String,
    pub hashed_password: String,
}

pub struct UserResponseView {
    pub id: u128,
    pub name: Seq<char>,
    pub nickname: Seq<char>,
    pub email: Seq<char>,
    pub hashed_password: Seq<char>,
}

impl View for UserResponse {
    type V = UserResponseView;

    open spec fn view(&self) -> UserResponseView {
        UserResponseView {
            id: self.id,
            name: self.name@,
            nickname: self.nickname@,
            email: self.email@,
            hashed_password: self.hashed_password@,
        }
    }
}

/// What is shown of the user `u`.
pub open spec fn response_of(u: UserView) -> UserResponseView {
    UserResponseView {
        id: u.id,
        name: u.name,
        nickname: u.nickname,
        email: u.email,
        hashed_password: u.hashed_password,
    }
}

impl From<User> for UserResponse {
    fn from(user: User) -> (response: UserResponse)
        ensures
            response.id == user.id,
            response.name@ == user.name@,
            response.nickname@ == user.nickname@,
            response.email@ == user.email@,
            response.hashed_password@ == user.hashed_password@,
    {
        UserResponse {
            id: user.id,
            name: user.name,
            nickname: user.nickname,
            email: user.email,
            hashed_password: user.hashed_password,
        }
    }
}

impl vstd::std_specs::convert::FromSpecImpl<User> for UserResponse {
    open spec fn obeys_from_spec() -> bool {
        true
    }

    open spec fn from_spec(user: User) -> UserResponse {
        UserResponse {
            id: user.id,
            name: user.name,
            nickname: user.nickname,
            email: user.email,
            hashed_password: user.hashed_password,
        }
    }
}

/// What is shown of a user carries each of its fields under the same name,
/// and nothing else.
pub proof fn lemma_response_keeps_each_field(u: UserView)
    ensures
        response_of(u).id == u.id,
        response_of(u).name == u.name,
        response_of(u).nickname == u.nickname,
        response_of(u).email == u.email,
        response_of(u).hashed_password == u.hashed_password,
{
}

/// The body of an answer.
#[derive(Debug)]
pub enum ReplyBody {
    Empty,
    Message(String),
    User(UserResponse),
    Users(Vec<UserResponse>),
}

/// An answer: an HTTP status code and a body.
#[derive(Debug)]
pub struct Reply {
    pub status: u16,
    pub body: ReplyBody,
}

/// Whether `body` is the message `text`.
pub open spec fn is_message(body: ReplyBody, text: Seq<char>) -> bool {
    body matches ReplyBody::Message(m) && m@ == text
}

/// Whether `body` shows the user `u`.
pub open spec fn shows_user(body: ReplyBody, u: UserView) -> bool {
    body matches ReplyBody::User(r) && r@ == response_of(u)
}

/// Whether `body` shows each of `users`, in order.
pub open spec fn shows_users(body: ReplyBody, users: Seq<User>) -> bool {
    &&& body matches ReplyBody::Users(shown)
    &&& shown@.len() == users.len()
    &&& forall|i: int| 0 <= i < users.len() ==> #[trigger] shown@[i]@ == response_of(users[i]@)
}

fn message(text: &str) -> (body: ReplyBody)
    ensures
        is_message(body, text@),
{
    ReplyBody::Message(String::from_str(text))
}

fn show_user(user: User) -> (body: ReplyBody)
    ensures
        shows_user(body, user@),
        body matches ReplyBody::User(r) && r.id == user.id && r.name@ == user.name@,
        body matches ReplyBody::User(r) ==> r.nickname@ == user.nickname@ && r.email@ == user.email@
            && r.hashed_password@ == user.hashed_password@,
{
    ReplyBody::User(UserResponse::from(user))
}

/// The answer to listing the users: all of them in order, or a server
/// error.
pub fn answer_get_all(result: Result<Vec<User>, RepoError>) -> (reply: Reply)
    ensures
        match result {
            Ok(users) => reply.status == STATUS_OK && shows_users(reply.body, users@),
            Err(_) => reply.status == STATUS_INTERNAL_SERVER_ERROR && is_message(
                reply.body,
                "Failed to fetch users"@,
            ),
        },
        result matches Ok(users) ==> {
            &&& reply.body matches ReplyBody::Users(shown)
            &&& shown@.len() == users@.len()
            &&& forall|i: int|
                0 <= i < users@.len() ==> {
                    &&& (#[trigger] shown@[i]).id == users@[i].id
                    &&& shown@[i].name@ == users@[i].name@
                    &&& shown@[i].nickname@ == users@[i].nickname@
                    &&& shown@[i].email@ == users@[i].email@
                    &&& shown@[i].hashed_password@ == users@[i].hashed_password@
                }
        },
{
    match result {
        Ok(users) => {
            let mut shown: Vec<UserResponse> = Vec::new();
            let n = users.len();
            for i in 0..n
                invariant
                    n == users@.len(),
                    shown@.len() == i,
                    forall|j: int| 0 <= j < i ==> #[trigger] shown@[j]@ == response_of(users@[j]@),
                    forall|j: int|
                        0 <= j < i ==> {
                            &&& (#[trigger] shown@[j]).id == users@[j].id
                            &&& shown@[j].name@ == users@[j].name@
                            &&& shown@[j].nickname@ == users@[j].nickname@
                            &&& shown@[j].email@ == users@[j].email@
                            &&& shown@[j].hashed_password@ == users@[j].hashed_password@
                        },
            {
                let user = &users[i];
                shown.push(
                    UserResponse {
                        id: user.id,
                        name: user.name.clone(),
                        nickname: user.nickname.clone(),
                        email: user.email.clone(),
                        hashed_password: user.hashed_password.clone(),
                    },
                );
            }
            Reply { status: STATUS_OK, body: ReplyBody::Users(shown) }
        },
        Err(_) => Reply { status: STATUS_INTERNAL_SERVER_ERROR, body: message("Failed to fetch users") },
    }
}

/// The answer to fetching one user: the user, "not found", or a server
/// error.
pub fn answer_get_by_id(result: Result<Option<User>, RepoError>) -> (reply: Reply)
    ensures
        match result {
            Ok(Some(u)) => reply.status == STATUS_OK && shows_user(reply.body, u@),
            Ok(None) => reply.status == STATUS_NOT_FOUND && is_message(reply.body, "User not found"@),
            Err(_) => reply.status == STATUS_INTERNAL_SERVER_ERROR && is_message(
                reply.body,
                "Failed to fetch user"@,
            ),
        },
        result matches Ok(Some(u)) ==> {
            &&& reply.body matches ReplyBody::User(r)
            &&& r.id == u.id
            &&& r.name@ == u.name@
            &&& r.nickname@ == u.nickname@
            &&& r.email@ == u.email@
            &&& r.hashed_password@ == u.hashed_password@
        },
{
    match result {
        Ok(Some(user)) => Reply { status: STATUS_OK, body: show_user(user) },
        Ok(None) => Reply { status: STATUS_NOT_FOUND, body: message("User not found") },
        Err(_) => Reply { status: STATUS_INTERNAL_SERVER_ERROR, body: message("Failed to fetch user") },
    }
}

/// The answer to creating a user: the created user, or a server error.
pub fn answer_create(result: Result<User, RepoError>) -> (reply: Reply)
    ensures
        match result {
            Ok(u) => reply.status == STATUS_CREATED && shows_user(reply.body, u@),
            Err(_) => reply.status == STATUS_INTERNAL_SERVER_ERROR && is_message(
                reply.body,
                "Failed to create user"@,
            ),
        },
        result matches Ok(u) ==> {
            &&& reply.body matches ReplyBody::User(r)
            &&& r.id == u.id
            &&& r.name@ == u.name@
            &&& r.nickname@ == u.nickname@
            &&& r.email@ == u.email@
            &&& r.hashed_password@ == u.hashed_password@
        },
{
    match result {
        Ok(user) => Reply { status: STATUS_CREATED, body: show_user(user) },
        Err(_) => Reply { status: STATUS_INTERNAL_SERVER_ERROR, body: message("Failed to create user") },
    }
}

/// The answer to updating a user: the updated user, "not found", or a
/// server error that names the database's message.
pub fn answer_update(result: Result<User, RepoError>) -> (reply: Reply)
    ensures
        match result {
            Ok(u) => reply.status == STATUS_OK && shows_user(reply.body, u@),
            Err(RepoError::RowNotFound) => reply.status == STATUS_NOT_FOUND && is_message(
                reply.body,
                "User not found"@,
            ),
            Err(RepoError::Database(m)) => reply.status == STATUS_INTERNAL_SERVER_ERROR && is_message(
                reply.body,
                "Failed to update user "@ + m@,
            ),
        },
        result matches Ok(u) ==> {
            &&& reply.body matches ReplyBody::User(r)
            &&& r.id == u.id
            &&& r.name@ == u.name@
            &&& r.nickname@ == u.nickname@
            &&& r.email@ == u.email@
            &&& r.hashed_password@ == u.hashed_password@
        },
{
    match result {
        Ok(user) => Reply { status: STATUS_OK, body: show_user(user) },
        Err(RepoError::RowNotFound) => Reply { status: STATUS_NOT_FOUND, body: message("User not found") },
        Err(RepoError::Database(m)) => {
            let text = String::from_str("Failed to update user ").concat(m.as_str());
            Reply { status: STATUS_INTERNAL_SERVER_ERROR, body: ReplyBody::Message(text) }
        },
    }
}

/// The answer to deleting a user: no content, "not found", or a server
/// error.
pub fn answer_delete(result: Result<(), RepoError>) -> (reply: Reply)
    ensures
        match result {
            Ok(()) => reply.status == STATUS_NO_CONTENT && reply.body is Empty,
            Err(RepoError::RowNotFound) => reply.status == STATUS_NOT_FOUND && is_message(
                reply.body,
                "User not found"@,
            ),
            Err(RepoError::Database(_)) => reply.status == STATUS_INTERNAL_SERVER_ERROR && is_message(
                reply.body,
                "Failed to delete user"@,
            ),
        },
{
    match result {
        Ok(()) => Reply { status: STATUS_NO_CONTENT, body: ReplyBody::Empty },
        Err(RepoError::RowNotFound) => Reply { status: STATUS_NOT_FOUND, body: message("User not found") },
        Err(RepoError::Database(_)) => Reply {
            status: STATUS_INTERNAL_SERVER_ERROR,
            body: message("Failed to delete user"),
        },
    }
}

/// The new hash that an update request stores: none where the request
/// gives no password, else a hash that the given password checks against.
pub fn hash_new_password(password: Option<String>) -> (hashed: Option<String>)
    requires
        password matches Some(p) ==> utf8_len(p@) <= MAX_PASSWORD_BYTES,
    ensures
        hashed is Some <==> password is Some,
        password matches Some(p) ==> hashed matches Some(h) && password_check(h@, p@) == Some(true),
        hashed matches Some(h) ==> is_default_argon2id_phc(h@),
        password matches Some(p) ==> hashed matches Some(h) && is_argon2_phc_of(h@, p@),
{
    match password {
        Some(plain) => Some(hash(plain.as_str())),
        None => None,
    }
}

} // verus!
