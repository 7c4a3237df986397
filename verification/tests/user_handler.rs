use axum_ddd::domain::identity::Timestamp;
use axum_ddd::domain::models::user::User;
use axum_ddd::presentation::user_handler::{
    answer_create, answer_delete, answer_get_all, answer_get_by_id, answer_update, hash_new_password, ReplyBody,
    UserResponse,
};
use axum_ddd::usecase::error::RepoError;

fn user(id: u128, name: &str) -> User {
    User::with_identity(
        id,
        Timestamp { secs: 1, nanos: 0 },
        name.to_string(),
        format!("nick_{}", name),
        format!("{}@example.com", name),
        "phc".to_string(),
    )
}

fn message(body: &ReplyBody) -> &str {
    match body {
        ReplyBody::Message(m) => m.as_str(),
        _ => panic!("expected a message"),
    }
}

#[test]
fn user_response_drops_instants_only() {
    let r = UserResponse::from(user(8, "ann"));
    assert_eq!(r.id, 8);
    assert_eq!(r.name, "ann");
    assert_eq!(r.nickname, "nick_ann");
    assert_eq!(r.email, "ann@example.com");
    assert_eq!(r.hashed_password, "phc");
}

#[test]
fn get_all_lists_users_in_order() {
    let reply = answer_get_all(Ok(vec![user(1, "a"), user(2, "b")]));
    assert_eq!(reply.status, 200);
    match reply.body {
        ReplyBody::Users(v) => {
            assert_eq!(v.len(), 2);
            assert_eq!(v[0].name, "a");
            assert_eq!(v[1].id, 2);
        }
        _ => panic!("expected users"),
    }
    let reply = answer_get_all(Err(RepoError::Database("x".to_string())));
    assert_eq!(reply.status, 500);
    assert_eq!(message(&reply.body), "Failed to fetch users");
}

#[test]
fn get_by_id_answers() {
    let reply = answer_get_by_id(Ok(Some(user(3, "c"))));
    assert_eq!(reply.status, 200);
    assert!(matches!(reply.body, ReplyBody::User(ref r) if r.id == 3));
    let reply = answer_get_by_id(Ok(None));
    assert_eq!(reply.status, 404);
    assert_eq!(message(&reply.body), "User not found");
    let reply = answer_get_by_id(Err(RepoError::RowNotFound));
    assert_eq!(reply.status, 500);
    assert_eq!(message(&reply.body), "Failed to fetch user");
}

#[test]
fn create_answers() {
    let reply = answer_create(Ok(user(4, "d")));
    assert_eq!(reply.status, 201);
    assert!(matches!(reply.body, ReplyBody::User(ref r) if r.name == "d"));
    let reply = answer_create(Err(RepoError::Database("dup".to_string())));
    assert_eq!(reply.status, 500);
    assert_eq!(message(&reply.body), "Failed to create user");
}

#[test]
fn update_answers() {
    let reply = answer_update(Ok(user(5, "e")));
    assert_eq!(reply.status, 200);
    let reply = answer_update(Err(RepoError::RowNotFound));
    assert_eq!(reply.status, 404);
    assert_eq!(message(&reply.body), "User not found");
    let reply = answer_update(Err(RepoError::Database("pool timed out".to_string())));
    assert_eq!(reply.status, 500);
    assert_eq!(message(&reply.body), "Failed to update user pool timed out");
}

#[test]
fn delete_answers() {
    let reply = answer_delete(Ok(()));
    assert_eq!(reply.status, 204);
    assert!(matches!(reply.body, ReplyBody::Empty));
    let reply = answer_delete(Err(RepoError::RowNotFound));
    assert_eq!(reply.status, 404);
    assert_eq!(message(&reply.body), "User not found");
    let reply = answer_delete(Err(RepoError::Database("x".to_string())));
    assert_eq!(reply.status, 500);
    assert_eq!(message(&reply.body), "Failed to delete user");
}

#[test]
fn new_password_is_hashed_when_given() {
    assert_eq!(hash_new_password(None), None);
    let hashed = hash_new_password(Some("pw".to_string())).unwrap();
    assert_ne!(hashed, "pw");
    assert!(hashed.starts_with("$argon2id$v=19$m=19456,t=2,p=1$"));
    let u = User::with_identity(1, Timestamp { secs: 0, nanos: 0 }, "a".into(), "b".into(), "c".into(), hashed);
    assert!(u.verify_password("pw"));
}
