use loqui::credentials::{new_user, verify_user_pass, CredentialError, Timestamp, User};

fn record(name: &str, hash: &str, banned: Option<bool>) -> User {
    User::from_db(
        "id".to_string(),
        name.to_string(),
        hash.to_string(),
        Timestamp { secs: 0, nanos: 0 },
        banned,
    )
}

#[test]
fn create_and_verify_credentials() {
    let eve = new_user("eve", "s3cret").unwrap();
    assert_eq!(eve.username, "eve");
    assert!(!eve.banned);
    assert_ne!(eve.password_hash, "s3cret");
    assert_eq!(eve.id.len(), 36);
    let users = vec![eve];
    assert_eq!(verify_user_pass(&users, "eve", "s3cret"), Ok(true));
    assert_eq!(verify_user_pass(&users, "eve", "wrong"), Ok(false));
    assert_eq!(verify_user_pass(&users, "mallory", "anything"), Ok(false));
}

#[test]
fn banned_user_never_verifies() {
    let mut eve = new_user("eve", "s3cret").unwrap();
    eve.banned = true;
    let users = vec![eve];
    assert_eq!(verify_user_pass(&users, "eve", "s3cret"), Ok(false));
}

#[test]
fn unknown_user_with_no_records() {
    let users: Vec<User> = Vec::new();
    assert_eq!(verify_user_pass(&users, "mallory", "anything"), Ok(false));
}

#[test]
fn malformed_hash_is_an_error() {
    let users = vec![record("eve", "not a hash", Some(false))];
    assert_eq!(verify_user_pass(&users, "eve", "x"), Err(CredentialError::MalformedHash));
}

#[test]
fn banned_malformed_record_is_skipped() {
    let users = vec![record("eve", "not a hash", Some(true))];
    assert_eq!(verify_user_pass(&users, "eve", "x"), Ok(false));
}

#[test]
fn from_db_reads_missing_ban_as_false() {
    let u = record("a", "h", None);
    assert!(!u.banned);
    assert_eq!(u.username, "a");
    assert_eq!(u.password_hash, "h");
    let v = record("a", "h", Some(true));
    assert!(v.banned);
}
