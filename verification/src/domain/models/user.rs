//! The user entity.
use vstd::prelude::*;
use crate::domain::identity::{chrono_timestamp_valid, jst_now_as_utc, new_uuid_v7, uuid_variant, uuid_version, Timestamp};
use crate::domain::password::{
    argon2_accepts, is_argon2_phc_of, is_default_argon2id_phc, phc_is_parsable, password_check, phc_parses, utf8_len, verify_against,
    MAX_PASSWORD_BYTES,
};

pub use crate::domain::password::hash;

verus! {

/// A user. `id` is the user's UUID as its 128-bit value; `hashed_password`
/// is an Argon2 PHC string.
#[derive(Debug, Clone)]
pub struct User {
    pub id: u128,
    pub name: String,
    pub nickname: String,
    pub email: String,
    pub hashed_password: String,
    pub created_at: Timestamp,
    pub updated_at: Timestamp,
}

/// A user with its strings taken as character sequences.
pub struct UserView {
    pub id: u128,
    pub name: Seq<char>,
    pub nickname: Seq<char>,
    pub email: Seq<char>,
    pub hashed_password: Seq<char>,
    pub created_at: Timestamp,
    pub updated_at: Timestamp,
}

impl View for User {
    type V = UserView;

    open spec fn view(&self) -> UserView {
        UserView {
            id: self.id,
            name: self.name@,
            nickname: self.nickname@,
            email: self.email@,
            hashed_password: self.hashed_password@,
            created_at: self.created_at,
            updated_at: self.updated_at,
        }
    }
}

/// The user that is made at instant `now` with identifier `id` and the
/// stored hash `hashed_password`, created and updated at the same instant.
pub open spec fn fresh_user(
    id: u128,
    now: Timestamp,
    name: Seq<char>,
    nickname: Seq<char>,
    email: Seq<char>,
    hashed_password: Seq<char>,
) -> UserView {
    UserView { id, name, nickname, email, hashed_password, created_at: now, updated_at: now }
}

impl User {
    /// A new user with a fresh version 7 UUID, created and updated now,
    /// whose stored hash is an Argon2 hash of `password` with a random salt.
    /// Checking `password` against the new user succeeds.
    pub fn new(name: String, nickname: String, email: String, password: String) -> (user: User)
        requires
            utf8_len(password@) <= MAX_PASSWORD_BYTES,
        ensures
            user@ == fresh_user(user.id, user.created_at, name@, nickname@, email@, user.hashed_password@),
            uuid_version(user.id) == 7,
            uuid_variant(user.id) == 2,
            chrono_timestamp_valid(user.created_at.secs, user.created_at.nanos),
            user.name@ == name@,
            user.nickname@ == nickname@,
            user.email@ == email@,
            user.created_at == user.updated_at,
            is_argon2_phc_of(user.hashed_password@, password@),
            is_default_argon2id_phc(user.hashed_password@),
            phc_parses(user.hashed_password@),
            argon2_accepts(password@, user.hashed_password@),
            password_check(user.hashed_password@, password@) == Some(true),
    {
        let now = jst_now_as_utc();
        let id = new_uuid_v7();
        let hashed_password = hash(password.as_str());
        User::with_identity(id, now, name, nickname, email, hashed_password)
    }

    /// The new user with the given identifier, creation instant and stored
    /// hash.
    pub fn with_identity(
        id: u128,
        now: Timestamp,
        name: String,
        nickname: String,
        email: String,
        hashed_password: String,
    ) -> (user: User)
        ensures
            user@ == fresh_user(id, now, name@, nickname@, email@, hashed_password@),
            user.id == id,
            user.name@ == name@,
            user.nickname@ == nickname@,
            user.email@ == email@,
            user.hashed_password@ == hashed_password@,
            user.created_at == now,
            user.updated_at == now,
    {
        User { id, name, nickname, email, hashed_password, created_at: now, updated_at: now }
    }

    /// Whether `pw` is the user's password. The stored hash must be a PHC
    /// string.
    pub fn verify_password(&self, pw: &str) -> (accepted: bool)
        requires
            phc_parses(self.hashed_password@),
        ensures
            accepted == argon2_accepts(pw@, self.hashed_password@),
    {
        verify_against(self.hashed_password.as_str(), pw)
    }

    /// Whether `pw` is the user's password; `None` where the stored hash is
    /// no PHC string.
    pub fn try_verify_password(&self, pw: &str) -> (r: Option<bool>)
        ensures
            r == password_check(self.hashed_password@, pw@),
    {
        if phc_is_parsable(self.hashed_password.as_str()) {
            Some(self.verify_password(pw))
        } else {
            None
        }
    }
}

} // verus!
