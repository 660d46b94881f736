use rusuh_auth::config::EnvConfig;
use rusuh_auth::entity::{UserGender, UserInfo, UserSecurity};
use rusuh_auth::totp::{totp, Totp};

fn env_config() -> EnvConfig {
    EnvConfig {
        database_url: "postgres://localhost/auth".to_string(),
        access_secret: "a".to_string(),
        refresh_secret: "r".to_string(),
        access_token_duration: 60,
        refresh_token_duration: 120,
        redis_host: "localhost".to_string(),
        redis_port: 6379,
        redis_password: None,
        email_host: "smtp.example.com".to_string(),
        email_user: "user".to_string(),
        email_password: "pw".to_string(),
        email_port: "587".to_string(),
        server_address: "0.0.0.0:50051".to_string(),
        smtp_from: "noreply@example.com".to_string(),
        app_name: "MyApp".to_string(),
        secret_key: "k".to_string(),
    }
}

#[test]
fn totp_secret_is_base32_of_32_bytes() {
    let t = Totp::init(&env_config());
    let secret = t.generate_secret();
    assert_eq!(secret.len(), 52);
    assert!(secret.chars().all(|c| c.is_ascii_uppercase() || ('2'..='7').contains(&c)));
    assert_ne!(secret, t.generate_secret());
}

#[test]
fn totp_uri_and_codes() {
    let t = totp(&env_config());
    let secret = t.generate_secret();
    let uri = t.generate_uri("alice", &secret).unwrap();
    assert_eq!(uri, format!("otpauth://totp/alice?secret={}&issuer=MyApp", secret));
    assert!(t.generate_uri("alice", "not base32 !").is_none());
    let c1 = t.generate_code_at(&secret, 1_000_000).unwrap();
    let c2 = t.generate_code_at(&secret, 1_000_100).unwrap();
    assert_eq!(c1, c2);
    assert!(c1.len() <= 6 && c1.chars().all(|c| c.is_ascii_digit()));
    assert!(t.generate_code(&secret).is_some());
    assert!(t.generate_code("not base32 !").is_none());
    assert!(!t.verify_code("not base32 !", 123456));
}

#[test]
fn config_yields_auth_settings() {
    let cfg = env_config();
    let auth = cfg.auth_config(4);
    assert_eq!(auth.access_secret, "a");
    assert_eq!(auth.refresh_secret, "r");
    assert_eq!(auth.access_token_duration, 60);
    assert_eq!(auth.refresh_token_duration, 120);
    assert_eq!(auth.password_cost, 4);
    assert!(rusuh_auth::config::RedisClient::new(&cfg).is_ok());
}

#[test]
fn info_and_security_records() {
    let info = UserInfo::new("u".to_string(), "Ada".to_string(), "L".to_string(), UserGender::Female, 3650);
    assert_eq!(info.id.len(), 36);
    assert_eq!(info.birth_date, 3650);
    assert_eq!(info.gender, UserGender::Female);
    assert_eq!(info.deleted_at, None);
    let sec = UserSecurity::new("u".to_string(), None, Some(5), None, None);
    assert_eq!(sec.email_verified_at, Some(5));
    assert_eq!(sec.created_at, sec.updated_at);
    assert_ne!(sec.id, info.id);
}
