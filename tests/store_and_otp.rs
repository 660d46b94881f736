use rusuh_auth::error::{ErrorKind, StoreError};
use rusuh_auth::otp::{email_otp, otp_key, OtpEmail};
use rusuh_auth::store::{blacklist_token, blacklist_verdict, ensure_not_blacklisted, MemoryStore, RedisPort};

#[test]
fn blacklist_refuses_exactly_that_token() {
    let mut store = MemoryStore::new();
    assert!(ensure_not_blacklisted(&store, "tok-a").is_ok());
    blacklist_token(&mut store, "tok-a").unwrap();
    let err = ensure_not_blacklisted(&store, "tok-a").unwrap_err();
    assert_eq!(err.kind, ErrorKind::Unauthenticated);
    assert_eq!(err.message, "Token already invalidated or blacklisted");
    assert!(ensure_not_blacklisted(&store, "tok-b").is_ok());
    assert!(ensure_not_blacklisted(&store, "tok-a ").is_ok());
}

#[test]
fn blacklist_verdict_only_for_sentinel() {
    assert!(blacklist_verdict(Ok(None)).is_ok());
    assert!(blacklist_verdict(Ok(Some("{\"id\":\"x\"}".to_string()))).is_ok());
    assert!(blacklist_verdict(Ok(Some("blacklisted".to_string()))).is_ok());
    let err = blacklist_verdict(Ok(Some("BLACKLISTED".to_string()))).unwrap_err();
    assert_eq!(err.kind, ErrorKind::Unauthenticated);
}

#[test]
fn blacklist_verdict_fails_closed_on_store_error() {
    let err = blacklist_verdict(Err(StoreError { detail: "connection refused".to_string() })).unwrap_err();
    assert_eq!(err.kind, ErrorKind::Internal);
    assert!(!err.message.contains("connection refused"));
}

#[test]
fn memory_store_operations() {
    let mut store = MemoryStore::new();
    assert_eq!(store.get_value("k").unwrap(), None);
    store.set_value("k", "v1").unwrap();
    store.set_value("other", "x").unwrap();
    store.set_value("k", "v2").unwrap();
    assert_eq!(store.get_value("k").unwrap(), Some("v2".to_string()));
    assert!(store.key_exists("k").unwrap());
    assert_eq!(store.pull_value("k").unwrap(), Some("v2".to_string()));
    assert!(!store.key_exists("k").unwrap());
    assert_eq!(store.pull_value("k").unwrap(), None);
    assert_eq!(store.get_value("other").unwrap(), Some("x".to_string()));
    store.delete_value("other").unwrap();
    assert_eq!(store.get_value("other").unwrap(), None);
}

#[test]
fn otp_key_is_namespaced() {
    assert_eq!(otp_key("a@x.com"), "otp:a@x.com");
    assert_eq!(otp_key(""), "otp:");
}

#[test]
fn generated_codes_have_requested_length_and_alphabet() {
    let otp = email_otp();
    for len in [0usize, 1, 6, 32] {
        let code = otp.generate_code(len);
        assert_eq!(code.chars().count(), len);
        assert!(code.chars().all(|c| c.is_ascii_alphanumeric()));
    }
    let a = otp.generate_code(32);
    let b = otp.generate_code(32);
    assert_ne!(a, b);
}

#[test]
fn create_otp_expiry() {
    let otp = OtpEmail::init();
    let (code, expires) = otp.create_otp_at(6, 5, 1000);
    assert_eq!(code.len(), 6);
    assert_eq!(expires, 1300);
    let (code, expires) = otp.create_otp(6, 10).unwrap();
    assert_eq!(code.len(), 6);
    assert!(expires > 600);
    assert!(otp.create_otp(6, u64::MAX).is_none());
}

#[test]
fn verify_otp_exact_match() {
    let otp = email_otp();
    assert!(otp.verify_otp("a@x.com", "Ab12Cd", "Ab12Cd"));
    assert!(!otp.verify_otp("a@x.com", "Ab12Cd", "ab12cd"));
    assert!(!otp.verify_otp("a@x.com", "Ab12Cd", "Ab12C"));
}

#[test]
fn otp_record_is_single_use() {
    let mut store = MemoryStore::new();
    store.set_value(&otp_key("e@x.com"), "Q1w2E3").unwrap();
    let stored = store.get_value(&otp_key("e@x.com")).unwrap().unwrap();
    assert!(email_otp().verify_otp("e@x.com", &stored, "Q1w2E3"));
    store.delete_value(&otp_key("e@x.com")).unwrap();
    assert_eq!(store.get_value(&otp_key("e@x.com")).unwrap(), None);
}
