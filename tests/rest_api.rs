use chat_core::auth::{authenticate_request, require_user, AuthError, TOKEN_LIFETIME_SECS};
use chat_core::models::{channel_resources, Channel, Message, Timestamp, User};
use chat_core::rest::{
    decide_login, decide_registration, login, message_author_ids, message_resources,
    register_account, LoginError, RegisterError,
};

fn ts(secs: i64) -> Timestamp {
    Timestamp { secs, nanos: 0 }
}

fn account(id: &str, name: &str, password_hash: &str) -> User {
    User {
        id: id.to_string(),
        username: name.to_string(),
        display_name: name.to_string(),
        password: password_hash.to_string(),
        is_system_user: 0,
        created_at: ts(1),
        updated_at: ts(2),
    }
}

fn msg(id: &str, author: &str) -> Message {
    Message {
        id: id.to_string(),
        user_id: author.to_string(),
        channel_id: "c1".to_string(),
        content: Some(format!("text {}", id)),
        created_at: ts(10),
        updated_at: ts(11),
        deleted_at: None,
        deleted_by_user_id: None,
    }
}

#[test]
fn register_then_login_round_trip() {
    let acct = register_account(&"alice".to_string(), "s3cret", false).unwrap();
    assert_eq!(acct.username, "alice");
    assert_eq!(acct.display_name, "alice");
    assert_ne!(acct.password_hash, "s3cret");
    assert!(acct.password_hash.starts_with("$argon2"));
    let found = Some(account("u1", "alice", &acct.password_hash));
    let claims = login(&found, "s3cret", 1_000).unwrap();
    assert_eq!(claims.sub, "u1");
    assert_eq!(claims.iat, 1_000);
    assert_eq!(claims.exp, 1_000 + TOKEN_LIFETIME_SECS);
    assert_eq!(login(&found, "wrong", 1_000).unwrap_err(), LoginError::WrongPassword);
    assert_eq!(login(&None, "s3cret", 1_000).unwrap_err(), LoginError::UnknownUsername);
}

#[test]
fn login_with_unparsable_hash_fails() {
    let found = Some(account("u1", "alice", "plain-text"));
    assert_eq!(login(&found, "plain-text", 5).unwrap_err(), LoginError::WrongPassword);
}

#[test]
fn login_decisions_and_responses() {
    let found = Some(account("u1", "alice", "h"));
    assert_eq!(decide_login(&found, true, 7).unwrap().exp, 3_607);
    assert_eq!(decide_login(&found, false, 7).unwrap_err(), LoginError::WrongPassword);
    let (status, body) = LoginError::UnknownUsername.to_error_response();
    assert_eq!(status, 400);
    assert_eq!(body.status, "fail");
    assert_eq!(body.message, "Invalid username or password1");
    assert_eq!(LoginError::WrongPassword.to_error_response().1.message, "Invalid username or password2");
}

#[test]
fn registration_refuses_taken_username() {
    assert_eq!(
        register_account(&"alice".to_string(), "pw", true).unwrap_err(),
        RegisterError::UsernameTaken
    );
    assert_eq!(
        decide_registration(&"bob".to_string(), false, None).unwrap_err(),
        RegisterError::HashingFailed
    );
    let acct = decide_registration(&"bob".to_string(), false, Some("H".to_string())).unwrap();
    assert_eq!(acct.password_hash, "H");
    let (status, body) = RegisterError::UsernameTaken.to_error_response();
    assert_eq!(status, 409);
    assert_eq!(body.message, "User with that username already exists");
    assert_eq!(RegisterError::HashingFailed.to_error_response().0, 500);
}

#[test]
fn author_ids_are_unique() {
    let messages = vec![msg("m1", "a"), msg("m2", "b"), msg("m3", "a")];
    let mut ids = message_author_ids(&messages);
    ids.sort();
    assert_eq!(ids, vec!["a".to_string(), "b".to_string()]);
    assert!(message_author_ids(&vec![]).is_empty());
}

#[test]
fn messages_enriched_with_authors() {
    let messages = vec![msg("m1", "a"), msg("m2", "b")];
    let users = vec![account("b", "bob", "h"), account("a", "alice", "h")];
    let out = message_resources(&messages, &users).unwrap();
    assert_eq!(out.len(), 2);
    assert_eq!(out[0].id, "m1");
    assert_eq!(out[0].user.username, "alice");
    assert_eq!(out[1].user.username, "bob");
    assert_eq!(out[1].content.as_deref(), Some("text m2"));
    assert!(out[0].attachments.is_empty());
    assert!(message_resources(&messages, &vec![account("a", "alice", "h")]).is_none());
}

#[test]
fn channel_resources_keep_order() {
    let ch = |id: &str, d: i8| Channel {
        id: id.to_string(),
        name: id.to_uppercase(),
        sort_order: 0,
        is_default: d,
        created_at: ts(1),
        updated_at: ts(1),
        deleted_at: Some(ts(9)),
    };
    let out = channel_resources(&vec![ch("x", 0), ch("y", 3)]);
    assert_eq!(out.len(), 2);
    assert_eq!(out[0].name, "X");
    assert!(!out[0].isDefault);
    assert!(out[1].isDefault);
    assert_eq!(out[1].deletedAt, Some(ts(9)));
}

#[test]
fn request_without_bearer_is_not_logged_in() {
    assert_eq!(authenticate_request(&None, b"k"), Err(AuthError::MissingCredential));
    assert_eq!(
        authenticate_request(&Some("Token abc".to_string()), b"k"),
        Err(AuthError::MissingCredential)
    );
    assert_eq!(
        authenticate_request(&Some("Bearer abc".to_string()), b"k"),
        Err(AuthError::InvalidCredential)
    );
    assert_eq!(require_user::<User>(None).unwrap_err(), AuthError::UnknownUser);
    assert_eq!(require_user(Some(3)).unwrap(), 3);
}
