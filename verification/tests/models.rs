use axum_ddd::domain::identity::{Timestamp, CHRONO_MAX_SECS, CHRONO_MIN_SECS};
use axum_ddd::domain::password::{check_against, phc_is_parsable};
use chrono::DateTime;
use axum_ddd::domain::models::todo::Todo;
use axum_ddd::domain::models::user::{hash, User};
use chrono::Utc;
use uuid::Uuid;

fn to_datetime(t: Timestamp) -> chrono::DateTime<Utc> {
    DateTime::from_timestamp(t.secs, t.nanos).unwrap()
}

#[test]
fn test_new_todo() {
    let title = "テストタイトル";
    let description = "テスト説明";

    let todo = Todo::new(title.to_string(), description.to_string());

    assert_eq!(todo.title, title);
    assert_eq!(todo.description, Some(description.to_string()));

    assert!(!todo.completed);

    assert_eq!(todo.created_at, todo.updated_at);

    assert_eq!(Uuid::from_u128(todo.id).get_version_num(), 7);

    let now = Utc::now();
    let diff = now.signed_duration_since(to_datetime(todo.created_at));
    assert!(diff.num_seconds().abs() < 1);
}

#[test]
fn test_new_user() {
    let name = "yu1hpa";
    let nickname = "nickname_yu1hpa";
    let email = "yu1hpa@example.com";
    let password = "asdfqwer";

    let user = User::new(
        name.to_string(),
        nickname.to_string(),
        email.to_string(),
        password.to_string(),
    );

    assert_eq!(user.name, name);
    assert_eq!(user.nickname, nickname);

    assert_eq!(user.email, email);
    assert!(user.verify_password(password));
}

#[test]
fn new_todo_ids_are_rfc_variant_and_distinct() {
    let a = Todo::new("a".to_string(), "x".to_string());
    let b = Todo::new("b".to_string(), "y".to_string());
    assert_ne!(a.id, b.id);
    assert_eq!(Uuid::from_u128(a.id).get_variant(), uuid::Variant::RFC4122);
    assert!(DateTime::from_timestamp(a.created_at.secs, a.created_at.nanos).is_some());
    assert_eq!((a.id >> 76) & 0xf, 7);
}

#[test]
fn todo_with_identity_sets_every_field() {
    let now = Timestamp { secs: 1_700_000_000, nanos: 42 };
    let todo = Todo::with_identity(99, now, "t".to_string(), "d".to_string());
    assert_eq!(todo.id, 99);
    assert_eq!(todo.title, "t");
    assert_eq!(todo.description, Some("d".to_string()));
    assert!(!todo.completed);
    assert_eq!(todo.created_at, now);
    assert_eq!(todo.updated_at, now);
}

#[test]
fn user_with_identity_keeps_the_given_hash() {
    let now = Timestamp { secs: 3, nanos: 4 };
    let user = User::with_identity(
        5,
        now,
        "n".to_string(),
        "nn".to_string(),
        "e@x".to_string(),
        "stored".to_string(),
    );
    assert_eq!(user.id, 5);
    assert_eq!(user.name, "n");
    assert_eq!(user.nickname, "nn");
    assert_eq!(user.email, "e@x");
    assert_eq!(user.hashed_password, "stored");
    assert_eq!(user.created_at, now);
    assert_eq!(user.updated_at, now);
}

#[test]
fn new_user_stores_a_hash_and_not_the_password() {
    let user = User::new(
        "a".to_string(),
        "b".to_string(),
        "c".to_string(),
        "secret".to_string(),
    );
    assert_ne!(user.hashed_password, "secret");
    assert!(user.hashed_password.starts_with("$argon2id$v=19$m=19456,t=2,p=1$"));
    assert_eq!(user.hashed_password.chars().count(), 97);
    assert_eq!(user.created_at, user.updated_at);
    assert_eq!(Uuid::from_u128(user.id).get_version_num(), 7);
}

#[test]
fn wrong_password_is_rejected() {
    let user = User::new(
        "a".to_string(),
        "b".to_string(),
        "c".to_string(),
        "secret".to_string(),
    );
    assert!(!user.verify_password("Secret"));
    assert_eq!(user.try_verify_password("secret"), Some(true));
    assert_eq!(user.try_verify_password(""), Some(false));
}

#[test]
fn unparsable_stored_hash_gives_none() {
    let user = User::with_identity(
        1,
        Timestamp { secs: 0, nanos: 0 },
        "a".to_string(),
        "b".to_string(),
        "c".to_string(),
        "not a phc string".to_string(),
    );
    assert_eq!(user.try_verify_password("anything"), None);
}

#[test]
fn hash_uses_a_fresh_salt_each_time() {
    let first = hash("hunter42");
    let second = hash("hunter42");
    assert_ne!(first, second);
    assert_ne!(first, "hunter42");
    assert!(first.starts_with("$argon2id$v=19$m=19456,t=2,p=1$"));
    assert_eq!(first.len(), 97);
    let user = User::with_identity(
        1,
        Timestamp { secs: 0, nanos: 0 },
        "a".to_string(),
        "b".to_string(),
        "c".to_string(),
        second,
    );
    assert!(user.verify_password("hunter42"));
    assert!(!user.verify_password("hunter43"));
}

#[test]
fn chrono_bounds_match_from_timestamp() {
    assert!(DateTime::from_timestamp(CHRONO_MIN_SECS, 0).is_some());
    assert_eq!(DateTime::<Utc>::MIN_UTC.timestamp(), CHRONO_MIN_SECS);
    assert_eq!(DateTime::<Utc>::MAX_UTC.timestamp(), CHRONO_MAX_SECS);
    assert!(DateTime::from_timestamp(CHRONO_MIN_SECS - 1, 999_999_999).is_none());
    assert!(DateTime::from_timestamp(CHRONO_MAX_SECS, 999_999_999).is_some());
    assert!(DateTime::from_timestamp(CHRONO_MAX_SECS, 1_999_999_999).is_some());
    assert!(DateTime::from_timestamp(CHRONO_MAX_SECS + 1, 0).is_none());
    assert!(DateTime::from_timestamp(0, 1_000_000_000).is_none());
    assert!(DateTime::from_timestamp(59, 1_500_000_000).is_some());
    assert!(DateTime::from_timestamp(-1, 1_999_999_999).is_some());
    assert!(DateTime::from_timestamp(58, 2_000_000_000).is_none());
}

#[test]
fn check_against_parses_once_and_answers() {
    let phc = hash("pw1");
    assert!(phc_is_parsable(&phc));
    assert!(!phc_is_parsable("plain"));
    assert_eq!(check_against(&phc, "pw1"), Some(true));
    assert_eq!(check_against(&phc, "pw2"), Some(false));
    assert_eq!(check_against("plain", "pw1"), None);
}

