use rusuh_auth::config::{parse_decimal, parse_duration, parse_port, redis_url, to_decimal};
use rusuh_auth::dto::{
    format_validation_errors, password_validator, FieldError, ForgotPasswordDto, LoginDto, LogoutDto, RegisterDto,
    SendOtpDto, VerifyEmailDto,
};
use rusuh_auth::entity::{User, UserGender, UserSessions, UserStatus};
use rusuh_auth::password::{hash_password, verify_password};

#[test]
fn status_strings_round_trip() {
    for s in [UserStatus::Active, UserStatus::Inactive, UserStatus::Suspended, UserStatus::Banned] {
        assert_eq!(UserStatus::from_str(s.as_str()), Some(s));
    }
    assert_eq!(UserStatus::Active.as_str(), "active");
    assert_eq!(UserStatus::from_str("Active"), None);
    assert_eq!(UserStatus::from_str(""), None);
}

#[test]
fn gender_strings_round_trip() {
    for g in [UserGender::Male, UserGender::Female, UserGender::PreferNotToSay] {
        assert_eq!(UserGender::from_str(g.as_str()), Some(g));
    }
    assert_eq!(UserGender::PreferNotToSay.as_str(), "prefer-not-to-say");
    assert_eq!(UserGender::from_str("other"), None);
}

#[test]
fn new_records_get_fresh_ids() {
    let a = User::new("N".to_string(), "a@x.com".to_string(), "h".to_string(), UserStatus::Inactive);
    let b = User::new("N".to_string(), "a@x.com".to_string(), "h".to_string(), UserStatus::Inactive);
    assert_eq!(a.id.len(), 36);
    assert_ne!(a.id, b.id);
    assert_eq!(a.created_at, a.updated_at);
    assert!(a.created_at > 1_600_000_000);
    let s = UserSessions::new(a.id.clone(), "10.0.0.1".to_string(), "agent".to_string(), "{}".to_string());
    assert_eq!(s.user_id, a.id);
    assert_eq!(s.id.len(), 36);
    assert_eq!(s.deleted_at, None);
}

#[test]
fn password_hash_and_verify() {
    let h = hash_password("Str0ng!Pw", 4).unwrap();
    assert_ne!(h, "Str0ng!Pw");
    assert_eq!(h.len(), 60);
    assert!(verify_password("Str0ng!Pw", &h));
    assert!(!verify_password("Str0ng!Pv", &h));
    assert!(!verify_password("Str0ng!Pw", "not-a-hash"));
    assert!(hash_password("Str0ng!Pw", 99).is_err());
}

#[test]
fn password_complexity_rule() {
    assert!(password_validator("Str0ng!Pw").is_ok());
    assert_eq!(password_validator("weak").unwrap_err(), "password_complexity");
    assert!(password_validator("Str0ngPwd").is_err());
    assert!(password_validator("str0ng!pw").is_err());
    assert!(password_validator("STR0NG!PW").is_err());
    assert!(password_validator("Strong!Pw").is_err());
    assert!(password_validator("S0!a").is_err());
    assert!(password_validator("Ab1 defgh").is_ok());
    // the length rule counts bytes: six characters, eight bytes
    assert!(password_validator("Ab1!\u{e9}\u{e9}").is_ok());
    assert!(password_validator("Ab1!\u{e9}").is_err());
}

#[test]
fn register_dto_validation() {
    let ok = RegisterDto { name: "Name".to_string(), email: "a@x.com".to_string(), password: "Str0ng!Pw".to_string() };
    assert!(ok.validate().is_ok());
    let bad = RegisterDto { name: "".to_string(), email: "not-an-email".to_string(), password: "short".to_string() };
    let errs = bad.validate().unwrap_err();
    assert_eq!(errs.len(), 3);
    assert_eq!(errs[0].field, "name");
    assert_eq!(errs[0].messages, vec!["Name cannot be empty".to_string()]);
    assert_eq!(errs[1].field, "email");
    assert_eq!(errs[2].messages.len(), 2);
    assert_eq!(
        format_validation_errors(&errs),
        "name: Name cannot be empty; email: Invalid email format; password: Password must be at least 8 characters long, \
Password must have at least 8 characters, uppercase, lowercase, number, and special character"
    );
}

#[test]
fn other_dto_validation() {
    assert!(LoginDto { email: "a@x.com".to_string(), password: "Str0ng!Pw".to_string() }.validate().is_ok());
    let errs = LoginDto { email: "a@".to_string(), password: "Str0ng!Pw".to_string() }.validate().unwrap_err();
    assert_eq!(format_validation_errors(&errs), "email: email is invalid");
    assert!(LogoutDto { refresh_token: "t".to_string() }.validate().is_ok());
    let errs = LogoutDto { refresh_token: "".to_string() }.validate().unwrap_err();
    assert_eq!(format_validation_errors(&errs), "refresh_token: Token cannot be empty");
    assert!(SendOtpDto { email: "a@x.com".to_string() }.validate().is_ok());
    assert!(SendOtpDto { email: "".to_string() }.validate().is_err());
    assert!(VerifyEmailDto { email: "a@x.com".to_string(), otp: "Ab12Cd".to_string() }.validate().is_ok());
    let errs = VerifyEmailDto { email: "a@x.com".to_string(), otp: "123".to_string() }.validate().unwrap_err();
    assert_eq!(format_validation_errors(&errs), "otp: OTP must be exactly 6 digits");
    let errs = ForgotPasswordDto { email: "a@x.com".to_string(), password: "Str0ng!Pw".to_string(), otp: "1234567".to_string() }
        .validate()
        .unwrap_err();
    assert_eq!(errs.len(), 1);
    assert_eq!(errs[0].field, "otp");
}

#[test]
fn format_of_no_errors_is_empty() {
    assert_eq!(format_validation_errors(&Vec::new()), "");
    let one = vec![FieldError { field: "f".to_string(), messages: vec!["a".to_string(), "b".to_string()] }];
    assert_eq!(format_validation_errors(&one), "f: a, b");
}

#[test]
fn decimal_and_redis_url() {
    assert_eq!(to_decimal(0), "0");
    assert_eq!(to_decimal(6379), "6379");
    assert_eq!(to_decimal(u64::MAX), "18446744073709551615");
    assert_eq!(redis_url("localhost", 6379, None), "redis://localhost:6379/");
    assert_eq!(redis_url("cache", 65535, Some("pw")), "redis://:pw@cache:65535/");
}

#[test]
fn configuration_numbers() {
    assert_eq!(parse_decimal("0"), Some(0));
    assert_eq!(parse_decimal("007"), Some(7));
    assert_eq!(parse_decimal("18446744073709551615"), Some(u64::MAX));
    assert_eq!(parse_decimal("18446744073709551616"), None);
    assert_eq!(parse_decimal(""), None);
    assert_eq!(parse_decimal("-1"), None);
    assert_eq!(parse_decimal("12a"), None);
    assert_eq!(parse_duration("3600"), Some(3600));
    assert_eq!(parse_duration("0"), None);
    assert_eq!(parse_duration("9223372036854775807"), Some(i64::MAX));
    assert_eq!(parse_duration("9223372036854775808"), None);
    assert_eq!(parse_port("6379"), Some(6379));
    assert_eq!(parse_port("65536"), None);
}
