use rusuh_auth::auth::{check_login, extract_token_from_metadata, validate_access_token, AuthUseCase};
use rusuh_auth::dto::{ForgotPasswordDto, LoginDto, LogoutDto, RegisterDto, SendOtpDto, VerifyEmailDto};
use rusuh_auth::entity::{User, UserStatus};
use rusuh_auth::error::ErrorKind;
use rusuh_auth::otp::otp_key;
use rusuh_auth::ports::{MemorySessions, MemoryUsers, Outbox, UserPort};
use rusuh_auth::store::{ensure_not_blacklisted, MemoryStore, RedisPort};
use rusuh_auth::token::{AuthConfig, Token, TokenError};

type UseCase = AuthUseCase<MemoryUsers, MemorySessions, MemoryStore, Outbox>;

fn use_case() -> UseCase {
    let config = AuthConfig {
        access_secret: "access-secret".to_string(),
        refresh_secret: "refresh-secret".to_string(),
        access_token_duration: 900,
        refresh_token_duration: 86400,
        password_cost: 4,
    };
    AuthUseCase::new(MemoryUsers::new(), MemorySessions::new(), MemoryStore::new(), Outbox::new(), config)
}

fn register(uc: &mut UseCase, email: &str, password: &str) {
    uc.register(RegisterDto { name: "Name".to_string(), email: email.to_string(), password: password.to_string() })
        .unwrap();
}

fn activate(uc: &mut UseCase, email: &str) {
    uc.send_otp(SendOtpDto { email: email.to_string() }).unwrap();
    let code = uc.redis_adapter.get_value(&otp_key(email)).unwrap().unwrap();
    uc.verify_email(VerifyEmailDto { email: email.to_string(), otp: code }).unwrap();
}

fn login(uc: &mut UseCase, email: &str, password: &str) -> Result<rusuh_auth::auth::LoginData, rusuh_auth::error::AuthError> {
    uc.login(
        LoginDto { email: email.to_string(), password: password.to_string() },
        "127.0.0.1".to_string(),
        "test-agent".to_string(),
        "{}".to_string(),
    )
}

#[test]
fn end_to_end_register_verify_login_logout() {
    let mut uc = use_case();
    let profile = uc
        .register(RegisterDto { name: "Name".to_string(), email: "a@x.com".to_string(), password: "Str0ng!Pw".to_string() })
        .unwrap();
    assert_eq!(profile.email, "a@x.com");
    assert_eq!(profile.name, "Name");
    assert_eq!(profile.id.len(), 36);
    let stored = uc.adapter.find_by_email("a@x.com").unwrap().unwrap();
    assert_eq!(stored.status, UserStatus::Inactive);
    assert_ne!(stored.password, "Str0ng!Pw");

    let msg = uc.send_otp(SendOtpDto { email: "a@x.com".to_string() }).unwrap();
    assert_eq!(msg, "OTP request sent successfully");
    let code = uc.redis_adapter.get_value("otp:a@x.com").unwrap().unwrap();
    assert_eq!(code.chars().count(), 6);
    assert!(code.chars().all(|c| c.is_ascii_alphanumeric()));
    assert_eq!(uc.mailer.sent, vec![("a@x.com".to_string(), code.clone())]);

    let msg = uc.verify_email(VerifyEmailDto { email: "a@x.com".to_string(), otp: code.clone() }).unwrap();
    assert_eq!(msg, "Email verified successfully");
    assert_eq!(uc.adapter.find_by_email("a@x.com").unwrap().unwrap().status, UserStatus::Active);
    assert_eq!(uc.redis_adapter.get_value("otp:a@x.com").unwrap(), None);

    let tokens = login(&mut uc, "a@x.com", "Str0ng!Pw").unwrap();
    assert!(!tokens.access_token.is_empty());
    assert!(!tokens.refresh_token.is_empty());
    assert_eq!(uc.session.len(), 1);
    let cached = uc.redis_adapter.get_value(&tokens.access_token).unwrap().unwrap();
    assert_eq!(
        cached,
        format!("{{\"id\":\"{}\",\"name\":\"Name\",\"email\":\"a@x.com\",\"status\":\"active\"}}", profile.id)
    );
    let claims = Token::validate_token(&tokens.access_token, "access-secret").unwrap();
    assert_eq!(claims.sub, profile.id);

    let msg = uc
        .logout(LogoutDto { refresh_token: tokens.refresh_token.clone() }, tokens.access_token.clone())
        .unwrap();
    assert_eq!(msg, "Logout successful");
    let err = ensure_not_blacklisted(&uc.redis_adapter, &tokens.refresh_token).unwrap_err();
    assert_eq!(err.kind, ErrorKind::Unauthenticated);
    assert!(ensure_not_blacklisted(&uc.redis_adapter, &tokens.access_token).is_err());
    // a second logout with the same tokens is refused
    assert!(uc.logout(LogoutDto { refresh_token: tokens.refresh_token.clone() }, tokens.access_token.clone()).is_err());
}

#[test]
fn register_twice_already_exists() {
    let mut uc = use_case();
    register(&mut uc, "b@x.com", "Str0ng!Pw");
    let err = uc
        .register(RegisterDto { name: "Other".to_string(), email: "b@x.com".to_string(), password: "An0ther!Pw".to_string() })
        .unwrap_err();
    assert_eq!(err.kind, ErrorKind::AlreadyExists);
    assert_eq!(err.message, "User already exists");
}

#[test]
fn wrong_secret_and_unknown_email_fail_identically() {
    let mut uc = use_case();
    register(&mut uc, "c@x.com", "Str0ng!Pw");
    activate(&mut uc, "c@x.com");
    let wrong = login(&mut uc, "c@x.com", "Wr0ng!Pw").unwrap_err();
    let unknown = login(&mut uc, "nobody@x.com", "Str0ng!Pw").unwrap_err();
    assert_eq!(wrong.kind, ErrorKind::Unauthenticated);
    assert_eq!(wrong.kind, unknown.kind);
    assert_eq!(wrong.message, unknown.message);
    assert_eq!(wrong.to_string(), "Invalid email or password");
    assert_eq!(uc.session.len(), 0);
}

#[test]
fn inactive_account_told_to_verify_email() {
    let mut uc = use_case();
    register(&mut uc, "d@x.com", "Str0ng!Pw");
    let err = login(&mut uc, "d@x.com", "Str0ng!Pw").unwrap_err();
    assert_eq!(err.kind, ErrorKind::PermissionDenied);
    assert_eq!(err.message, "Verify your email first");
    assert_eq!(uc.session.len(), 0);
}

#[test]
fn check_login_decisions() {
    let mut user = User::new("N".to_string(), "e@x.com".to_string(), "hash".to_string(), UserStatus::Active);
    assert!(check_login(&Some(user.clone()), true).is_ok());
    assert_eq!(check_login(&Some(user.clone()), false).unwrap_err().message, "Invalid email or password");
    assert_eq!(check_login(&None, true).unwrap_err().message, "Invalid email or password");
    user.status = UserStatus::Suspended;
    assert_eq!(check_login(&Some(user), true).unwrap_err().kind, ErrorKind::PermissionDenied);
}

#[test]
fn verify_email_code_is_single_use() {
    let mut uc = use_case();
    register(&mut uc, "f@x.com", "Str0ng!Pw");
    uc.send_otp(SendOtpDto { email: "f@x.com".to_string() }).unwrap();
    let code = uc.redis_adapter.get_value("otp:f@x.com").unwrap().unwrap();
    assert!(uc.verify_email(VerifyEmailDto { email: "f@x.com".to_string(), otp: code.clone() }).is_ok());
    let err = uc.verify_email(VerifyEmailDto { email: "f@x.com".to_string(), otp: code }).unwrap_err();
    assert_eq!(err.kind, ErrorKind::InvalidArgument);
    assert_eq!(err.message, "Invalid OTP code");
}

#[test]
fn wrong_otp_and_unknown_account() {
    let mut uc = use_case();
    register(&mut uc, "g@x.com", "Str0ng!Pw");
    let err = uc.verify_email(VerifyEmailDto { email: "g@x.com".to_string(), otp: "AAAAAA".to_string() }).unwrap_err();
    assert_eq!(err.kind, ErrorKind::InvalidArgument);
    uc.send_otp(SendOtpDto { email: "g@x.com".to_string() }).unwrap();
    let code = uc.redis_adapter.get_value("otp:g@x.com").unwrap().unwrap();
    let wrong = if code == "AAAAAA" { "BBBBBB" } else { "AAAAAA" };
    let err = uc.verify_email(VerifyEmailDto { email: "g@x.com".to_string(), otp: wrong.to_string() }).unwrap_err();
    assert_eq!(err.kind, ErrorKind::InvalidArgument);
    // the mismatch leaves the stored code in place
    assert_eq!(uc.redis_adapter.get_value("otp:g@x.com").unwrap(), Some(code));
    let err = uc.verify_email(VerifyEmailDto { email: "none@x.com".to_string(), otp: "AAAAAA".to_string() }).unwrap_err();
    assert_eq!(err.kind, ErrorKind::NotFound);
    assert_eq!(err.message, "User not found");
    let err = uc.send_otp(SendOtpDto { email: "none@x.com".to_string() }).unwrap_err();
    assert_eq!(err.kind, ErrorKind::NotFound);
}

#[test]
fn send_otp_overwrites_previous_code() {
    let mut uc = use_case();
    register(&mut uc, "h@x.com", "Str0ng!Pw");
    uc.send_otp(SendOtpDto { email: "h@x.com".to_string() }).unwrap();
    let first = uc.redis_adapter.get_value("otp:h@x.com").unwrap().unwrap();
    uc.send_otp(SendOtpDto { email: "h@x.com".to_string() }).unwrap();
    let second = uc.redis_adapter.get_value("otp:h@x.com").unwrap().unwrap();
    assert_eq!(uc.mailer.sent.len(), 2);
    assert_eq!(uc.mailer.sent[1].1, second);
    if first != second {
        assert!(uc.verify_email(VerifyEmailDto { email: "h@x.com".to_string(), otp: first }).is_err());
    }
    assert!(uc.verify_email(VerifyEmailDto { email: "h@x.com".to_string(), otp: second }).is_ok());
}

#[test]
fn forgot_password_replaces_secret() {
    let mut uc = use_case();
    register(&mut uc, "i@x.com", "Str0ng!Pw");
    activate(&mut uc, "i@x.com");
    uc.send_otp(SendOtpDto { email: "i@x.com".to_string() }).unwrap();
    let code = uc.redis_adapter.get_value("otp:i@x.com").unwrap().unwrap();
    let msg = uc
        .forgot_password(ForgotPasswordDto { email: "i@x.com".to_string(), password: "N3w!Passw".to_string(), otp: code.clone() })
        .unwrap();
    assert_eq!(msg, "Password reset successfully");
    assert_eq!(uc.redis_adapter.get_value("otp:i@x.com").unwrap(), None);
    assert!(login(&mut uc, "i@x.com", "Str0ng!Pw").is_err());
    assert!(login(&mut uc, "i@x.com", "N3w!Passw").is_ok());
    let err = uc
        .forgot_password(ForgotPasswordDto { email: "i@x.com".to_string(), password: "Th1rd!Pass".to_string(), otp: code })
        .unwrap_err();
    assert_eq!(err.kind, ErrorKind::InvalidArgument);
}

#[test]
fn logout_refuses_bad_tokens() {
    let mut uc = use_case();
    register(&mut uc, "j@x.com", "Str0ng!Pw");
    activate(&mut uc, "j@x.com");
    let tokens = login(&mut uc, "j@x.com", "Str0ng!Pw").unwrap();
    // refresh token given where the access token belongs
    assert!(uc.logout(LogoutDto { refresh_token: tokens.refresh_token.clone() }, tokens.refresh_token.clone()).is_err());
    // access token given as the refresh token
    let err = uc.logout(LogoutDto { refresh_token: tokens.access_token.clone() }, tokens.access_token.clone()).unwrap_err();
    assert_eq!(err.kind, ErrorKind::Unauthenticated);
    assert_eq!(err.message, "Invalid refresh token");
    assert!(ensure_not_blacklisted(&uc.redis_adapter, &tokens.refresh_token).is_ok());
    assert!(uc.logout(LogoutDto { refresh_token: tokens.refresh_token.clone() }, tokens.access_token.clone()).is_ok());
}

#[test]
fn bearer_extraction() {
    assert_eq!(extract_token_from_metadata(Some("Bearer abc.def")).unwrap(), "abc.def");
    assert_eq!(extract_token_from_metadata(Some("Bearer ")).unwrap(), "");
    let err = extract_token_from_metadata(None).unwrap_err();
    assert_eq!(err.message, "Authorization token is missing");
    assert_eq!(extract_token_from_metadata(Some("Basic abc")).unwrap_err().message, "Invalid token scheme");
    assert_eq!(extract_token_from_metadata(Some("bearer abc")).unwrap_err().kind, ErrorKind::Unauthenticated);
}

#[test]
fn access_token_check() {
    let mut uc = use_case();
    let (access, refresh) = Token::create_tokens("u1".to_string(), &uc.config).unwrap();
    let header = format!("Bearer {}", access);
    assert!(validate_access_token(&uc.redis_adapter, Some(&header), &uc.config).is_ok());
    assert!(validate_access_token(&uc.redis_adapter, Some(&access), &uc.config).is_err());
    assert!(validate_access_token(&uc.redis_adapter, None, &uc.config).is_err());
    let refresh_header = format!("Bearer {}", refresh);
    let err = validate_access_token(&uc.redis_adapter, Some(&refresh_header), &uc.config).unwrap_err();
    assert_eq!(err.message, "Invalid token");
    rusuh_auth::store::blacklist_token(&mut uc.redis_adapter, &access).unwrap();
    let err = validate_access_token(&uc.redis_adapter, Some(&header), &uc.config).unwrap_err();
    assert_eq!(err.message, "Token already invalidated or blacklisted");
    assert_eq!(Token::validate_token(&access, "access-secret").err(), None::<TokenError>);
}

#[test]
fn logout_refuses_refresh_token_of_another_subject() {
    let mut uc = use_case();
    let (access_a, _) = Token::create_tokens("user-a".to_string(), &uc.config).unwrap();
    let (_, refresh_b) = Token::create_tokens("user-b".to_string(), &uc.config).unwrap();
    let err = uc.logout(LogoutDto { refresh_token: refresh_b.clone() }, access_a.clone()).unwrap_err();
    assert_eq!(err.message, "Invalid refresh token");
    assert!(ensure_not_blacklisted(&uc.redis_adapter, &refresh_b).is_ok());
    assert!(ensure_not_blacklisted(&uc.redis_adapter, &access_a).is_ok());
}

#[test]
fn logout_refuses_expired_refresh_token() {
    let config = AuthConfig {
        access_secret: "access-secret".to_string(),
        refresh_secret: "refresh-secret".to_string(),
        access_token_duration: 86400,
        refresh_token_duration: 60,
        password_cost: 4,
    };
    let mut uc = AuthUseCase::new(MemoryUsers::new(), MemorySessions::new(), MemoryStore::new(), Outbox::new(), config);
    let now = 1_700_000_000;
    let (access, refresh) = Token::issue_pair("u1", now, &uc.config).unwrap();
    let err = uc.logout_at(LogoutDto { refresh_token: refresh.clone() }, access.clone(), now + 61).unwrap_err();
    assert_eq!(err.kind, ErrorKind::Unauthenticated);
    assert_eq!(err.message, "Invalid refresh token");
    assert!(ensure_not_blacklisted(&uc.redis_adapter, &refresh).is_ok());
    let err = uc.logout_at(LogoutDto { refresh_token: refresh.clone() }, access.clone(), now + 86401).unwrap_err();
    assert_eq!(err.message, "Token expired");
    assert_eq!(uc.logout_at(LogoutDto { refresh_token: refresh.clone() }, access.clone(), now + 30).unwrap(), "Logout successful");
    assert!(ensure_not_blacklisted(&uc.redis_adapter, &refresh).is_err());
    assert!(ensure_not_blacklisted(&uc.redis_adapter, &access).is_err());
}

#[test]
fn refused_requests_write_nothing() {
    let mut uc = use_case();
    register(&mut uc, "k@x.com", "Str0ng!Pw");
    assert!(login(&mut uc, "k@x.com", "Str0ng!Pw").is_err());
    assert!(login(&mut uc, "nobody@x.com", "Str0ng!Pw").is_err());
    assert_eq!(uc.session.len(), 0);
    assert!(uc.send_otp(SendOtpDto { email: "nobody@x.com".to_string() }).is_err());
    assert!(uc.mailer.sent.is_empty());
    uc.send_otp(SendOtpDto { email: "k@x.com".to_string() }).unwrap();
    let code = uc.redis_adapter.get_value("otp:k@x.com").unwrap().unwrap();
    let wrong = if code == "AAAAAA" { "BBBBBB" } else { "AAAAAA" };
    assert!(uc
        .forgot_password(ForgotPasswordDto { email: "k@x.com".to_string(), password: "N3w!Passw".to_string(), otp: wrong.to_string() })
        .is_err());
    assert_eq!(uc.redis_adapter.get_value("otp:k@x.com").unwrap(), Some(code.clone()));
    assert_eq!(uc.adapter.find_by_email("k@x.com").unwrap().unwrap().status, UserStatus::Inactive);
}

#[test]
fn cached_profile_escapes_json() {
    let mut uc = use_case();
    uc.register(RegisterDto { name: "A \"B\"\n".to_string(), email: "q@x.com".to_string(), password: "Str0ng!Pw".to_string() })
        .unwrap();
    activate(&mut uc, "q@x.com");
    let tokens = login(&mut uc, "q@x.com", "Str0ng!Pw").unwrap();
    let cached = uc.redis_adapter.get_value(&tokens.access_token).unwrap().unwrap();
    assert!(cached.contains("\"name\":\"A \\\"B\\\"\\n\""));
}
