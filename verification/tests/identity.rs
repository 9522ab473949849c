use tiny_shop::identity::account::{Account, AccountRole};
use tiny_shop::identity::account_repo::{
    account_registered_event, authenticate_with, hash_password, insert_error, is_unique_violation, parse_roles,
    verify_password_sync, AccountError, DUMMY_HASH,
};
use tiny_shop::identity::session::{
    check_expiry, generate_token, hash_token, issue_session, NewSession, SessionError,
};

fn account(pass_hash: &str) -> Account {
    Account {
        id: "acc-1".to_string(),
        email: "a@example.com".to_string(),
        pass_hash: pass_hash.to_string(),
        email_verified_at: None,
        created_at: 1,
        updated_at: 1,
        roles: vec![AccountRole::Customer],
    }
}

#[test]
fn role_codes_roundtrip() {
    for r in [AccountRole::Customer, AccountRole::Seller, AccountRole::Admin] {
        assert_eq!(AccountRole::parse(r.as_str()), Some(r));
    }
    assert_eq!(AccountRole::parse("root"), None);
    let rows = vec!["seller".to_string(), "ghost".to_string(), "customer".to_string()];
    assert_eq!(parse_roles(&rows), vec![AccountRole::Seller, AccountRole::Customer]);
    assert_eq!(parse_roles(&vec![]), vec![]);
}

#[test]
fn hashed_password_logs_in_and_wrong_one_does_not() {
    let hash = hash_password("correct horse").unwrap();
    assert!(hash.starts_with("$argon2id$v=19$m=19456,t=2,p=1$"));
    let salt = hash.split('$').nth(4).unwrap();
    assert_eq!(salt.len(), 22);
    assert!(salt.chars().all(|c| c.is_ascii_alphanumeric() || c == '+' || c == '/'));
    assert_ne!(hash, "correct horse");
    assert!(verify_password_sync(&hash, "correct horse"));
    assert!(!verify_password_sync(&hash, "battery staple"));
    let acc = account(&hash);
    assert!(authenticate_with(Some(acc.clone()), "correct horse").is_some());
    assert!(authenticate_with(Some(acc), "battery staple").is_none());
}

#[test]
fn unknown_email_never_logs_in() {
    assert!(authenticate_with(None, "anything").is_none());
    assert!(!verify_password_sync(DUMMY_HASH, "anything"));
    assert!(!verify_password_sync("not a phc string", "anything"));
}

#[test]
fn unique_email_violation_is_recognised() {
    let msg = "UNIQUE constraint failed: accounts.email";
    assert!(is_unique_violation(Some(msg)));
    assert!(!is_unique_violation(Some("UNIQUE constraint failed: accounts.id")));
    assert!(!is_unique_violation(Some("NOT NULL constraint failed: accounts.email")));
    assert!(!is_unique_violation(None));
    assert!(matches!(insert_error(Some(msg), "full".to_string()), AccountError::EmailTaken));
    match insert_error(None, "pool timed out".to_string()) {
        AccountError::Db(m) => assert_eq!(m, "pool timed out"),
        _ => panic!("expected Db"),
    }
}

#[test]
fn registration_event() {
    let ev = account_registered_event("acc-1", "a@example.com");
    assert_eq!(ev.aggregate, "account");
    assert_eq!(ev.aggregate_id, "acc-1");
    assert_eq!(ev.event_type, "AccountRegistered");
    assert_eq!(ev.payload, r#"{"account_id":"acc-1","email":"a@example.com"}"#);
}

#[test]
fn account_error_messages() {
    assert_eq!(AccountError::EmailTaken.message(), "email already taken");
    assert_eq!(AccountError::HashError("m".to_string()).message(), "password hashing: m");
    assert_eq!(AccountError::Join("j".to_string()).message(), "task join: j");
    assert_eq!(AccountError::Db("d".to_string()).message(), "db: d");
}

fn new_session(expires_at: i64) -> NewSession {
    NewSession { account_id: "acc-1".to_string(), expires_at, user_agent: None, ip_addr: None }
}

#[test]
fn session_expiry_must_be_in_the_future() {
    assert!(check_expiry(11, 10).is_ok());
    assert!(matches!(check_expiry(10, 10), Err(SessionError::InvalidExpiry)));
    assert!(matches!(issue_session(&new_session(5), 10), Err(SessionError::InvalidExpiry)));
    assert_eq!(SessionError::InvalidExpiry.message(), "session expiry must be in the future");
    assert_eq!(SessionError::Db("x".to_string()).message(), "db: x");
}

#[test]
fn issued_session_stores_only_the_digest() {
    let s = issue_session(&new_session(20), 10).unwrap();
    let raw = s.token.as_str();
    assert_eq!(raw.len(), 48);
    assert!(raw.chars().all(|c| c.is_ascii_alphanumeric()));
    assert_eq!(s.token_hash, blake3::hash(raw.as_bytes()).to_string());
    assert_ne!(s.token_hash, raw);
    assert_eq!(hash_token(raw), s.token_hash);
    assert_eq!(hash_token(raw).len(), 64);
    assert_ne!(generate_token(), generate_token());
}
