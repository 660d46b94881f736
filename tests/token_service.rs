use rusuh_auth::error::ErrorKind;
use rusuh_auth::token::{AuthConfig, Token, TokenError};

fn config() -> AuthConfig {
    AuthConfig {
        access_secret: "access-secret".to_string(),
        refresh_secret: "refresh-secret".to_string(),
        access_token_duration: 3600,
        refresh_token_duration: 604800,
        password_cost: 4,
    }
}

#[test]
fn issued_pair_validates_to_subject() {
    let cfg = config();
    let now = 1_700_000_000;
    let (access, refresh) = Token::issue_pair("user-1", now, &cfg).unwrap();
    assert!(!access.is_empty() && !refresh.is_empty());
    assert_ne!(access, "user-1");
    assert_ne!(access, refresh);
    let a = Token::validate_token_at(&access, &cfg.access_secret, now).unwrap();
    assert_eq!(a.sub, "user-1");
    assert_eq!(a.exp, now + 3600);
    let r = Token::validate_token_at(&refresh, &cfg.refresh_secret, now).unwrap();
    assert_eq!(r.sub, "user-1");
    assert_eq!(r.exp, now + 604800);
}

#[test]
fn issue_pair_is_deterministic_for_same_inputs() {
    let cfg = config();
    let p1 = Token::issue_pair("user-1", 100, &cfg).unwrap();
    let p2 = Token::issue_pair("user-1", 100, &cfg).unwrap();
    assert_eq!(p1, p2);
}

#[test]
fn wrong_class_secret_is_invalid_not_expired() {
    let cfg = config();
    let now = 1_700_000_000;
    let (access, refresh) = Token::issue_pair("user-1", now, &cfg).unwrap();
    assert_eq!(Token::validate_token_at(&access, &cfg.refresh_secret, now).err(), Some(TokenError::Invalid));
    assert_eq!(Token::validate_token_at(&refresh, &cfg.access_secret, now).err(), Some(TokenError::Invalid));
    // even long after expiry the wrong secret reads as invalid
    assert_eq!(Token::validate_token_at(&access, &cfg.refresh_secret, now + 10_000_000).err(), Some(TokenError::Invalid));
}

#[test]
fn expired_token_is_expired_and_tampered_is_invalid() {
    let cfg = config();
    let now = 1_700_000_000;
    let (access, _) = Token::issue_pair("user-1", now, &cfg).unwrap();
    assert_eq!(Token::validate_token_at(&access, &cfg.access_secret, now + 3601).err(), Some(TokenError::Expired));
    // at the expiry second itself the token is still accepted
    assert!(Token::validate_token_at(&access, &cfg.access_secret, now + 3600).is_ok());
    let mut tampered = access.clone();
    let last = tampered.pop().unwrap();
    tampered.push(if last == 'A' { 'B' } else { 'A' });
    assert_eq!(Token::validate_token_at(&tampered, &cfg.access_secret, now).err(), Some(TokenError::Invalid));
    assert_eq!(Token::validate_token_at("not.a.token", &cfg.access_secret, now).err(), Some(TokenError::Invalid));
    assert_eq!(Token::validate_token_at("", &cfg.access_secret, now).err(), Some(TokenError::Invalid));
}

#[test]
fn issue_pair_fails_when_expiry_overflows() {
    let cfg = config();
    assert!(Token::issue_pair("user-1", i64::MAX - 10, &cfg).is_err());
}

#[test]
fn create_tokens_validate_against_current_time() {
    let cfg = config();
    let (access, refresh) = Token::create_tokens("user-9".to_string(), &cfg).unwrap();
    assert_eq!(Token::validate_token(&access, &cfg.access_secret).unwrap().sub, "user-9");
    assert_eq!(Token::validate_token(&refresh, &cfg.refresh_secret).unwrap().sub, "user-9");
    assert_eq!(Token::validate_token(&access, &cfg.refresh_secret).err(), Some(TokenError::Invalid));
}

#[test]
fn token_error_messages() {
    let e = TokenError::Expired.to_auth_error();
    assert_eq!(e.kind, ErrorKind::Unauthenticated);
    assert_eq!(e.message, "Token expired");
    assert_eq!(TokenError::Invalid.to_auth_error().message, "Invalid token");
}

#[test]
fn token_new_keeps_claims() {
    let t = Token::new("abc".to_string(), 42);
    assert_eq!(t.sub, "abc");
    assert_eq!(t.exp, 42);
}
