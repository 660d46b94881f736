use vstd::prelude::*;

use crate::config::{decimal, to_decimal, EnvConfig};

verus! {

#[verifier::external_type_specification]
#[verifier::external_body]
pub struct ExTotp(otpauth::TOTP);

/// The period, in seconds, of the codes that `generate_code` hands out.
pub const CODE_PERIOD_SECS: u64 = 300;

/// The period, in seconds, that `verify_code` checks against.
pub const VERIFY_PERIOD_SECS: u64 = 30;

/// The RFC 4648 base32 text, without padding, of a byte string.
pub uninterp spec fn base32_unpadded(bytes: Seq<u8>) -> Seq<char>;

/// Relies on rand 0.9 `rand::random::<[u8; 32]>()`: 32 random bytes.
#[verifier::external_body]
fn random_bytes_32() -> (r: Vec<u8>)
    ensures
        r@.len() == 32,
{
    rand::random::<[u8; 32]>().to_vec()
}

/// Relies on `base32::encode` with the RFC 4648 alphabet and no padding: one character
/// per five bits, rounded up.
#[verifier::external_body]
fn base32_encode(bytes: &[u8]) -> (r: String)
    ensures
        r@ == base32_unpadded(bytes@),
        r@.len() == (8 * bytes@.len() + 4) / 5,
{
    base32::encode(base32::Alphabet::Rfc4648 { padding: false }, bytes)
}

/// `otpauth::TOTP::from_base32` accepts the text: `base32::decode` without padding reads it.
pub uninterp spec fn base32_secret_valid(secret: Seq<char>) -> bool;

/// Relies on `otpauth::TOTP::from_base32`: `None` exactly when the text is not base32
/// (a function of the text alone).
#[verifier::external_body]
fn totp_from_base32(secret: &str) -> (r: Option<otpauth::TOTP>)
    ensures
        r is Some <==> base32_secret_valid(secret@),
{
    otpauth::TOTP::from_base32(secret)
}

/// Relies on `otpauth::TOTP::to_uri`: the `otpauth://totp/` provisioning URI.
#[verifier::external_body]
fn totp_uri(totp: &otpauth::TOTP, label: &str, issuer: &str) -> (r: String) {
    totp.to_uri(label, issuer)
}

/// Relies on `otpauth::TOTP::generate`: the HOTP value of `timestamp / period`, reduced
/// below one million. The division needs a positive period.
#[verifier::external_body]
fn totp_generate(totp: &otpauth::TOTP, period: u64, timestamp: u64) -> (r: u32)
    requires
        period > 0,
    ensures
        r < 1_000_000,
{
    totp.generate(period, timestamp)
}

/// Relies on `otpauth::TOTP::verify`: whether `code` is the value for the period of
/// `timestamp`. The division needs a positive period.
#[verifier::external_body]
fn totp_verify(totp: &otpauth::TOTP, code: u32, period: u64, timestamp: u64) -> (r: bool)
    requires
        period > 0,
{
    totp.verify(code, period, timestamp)
}

/// Time-based one-time codes for authenticator apps.
pub struct Totp {
    issuer: String,
}

impl Totp {
    pub fn init(config: &EnvConfig) -> (r: Totp)
        ensures
            r.issuer() == config.app_name@,
    {
        Totp { issuer: config.app_name.clone() }
    }

    pub closed spec fn issuer(&self) -> Seq<char> {
        self.issuer@
    }

    /// A fresh random secret (32 bytes), as 52 base32 characters.
    pub fn generate_secret(&self) -> (r: String)
        ensures
            r@.len() == 52,
            exists|b: Seq<u8>| b.len() == 32 && r@ == base32_unpadded(b),
    {
        let bytes = random_bytes_32();
        base32_encode(bytes.as_slice())
    }

    /// The provisioning URI for `account`; `None` when `secret` is not base32.
    pub fn generate_uri(&self, account: &str, secret: &str) -> (r: Option<String>)
        ensures
            r is Some <==> base32_secret_valid(secret@),
    {
        match totp_from_base32(secret) {
            Some(t) => Some(totp_uri(&t, account, self.issuer.as_str())),
            None => None,
        }
    }

    /// The code for the period of `now`, in decimal; `None` when `secret` is not base32.
    pub fn generate_code_at(&self, secret: &str, now: u64) -> (r: Option<String>)
        ensures
            r is Some <==> base32_secret_valid(secret@),
            r matches Some(c) ==> exists|n: nat| n < 1_000_000 && c@ == decimal(n),
    {
        match totp_from_base32(secret) {
            Some(t) => {
                let code = totp_generate(&t, CODE_PERIOD_SECS, now);
                let s = to_decimal(code as u64);
                assert(s@ == decimal(code as nat));
                Some(s)
            },
            None => None,
        }
    }

    /// The code for the current period; `None` when `secret` is not base32.
    pub fn generate_code(&self, secret: &str) -> (r: Option<String>)
        ensures
            r is Some <==> base32_secret_valid(secret@),
            r matches Some(c) ==> exists|n: nat| n < 1_000_000 && c@ == decimal(n),
    {
        let now = crate::token::now_unix();
        self.generate_code_at(secret, now as u64)
    }

    /// Whether `code` is the code for the current period; `false` when `secret` is not
    /// base32.
    pub fn verify_code(&self, secret: &str, code: u32) -> (r: bool)
        ensures
            !base32_secret_valid(secret@) ==> !r,
    {
        let now = crate::token::now_unix();
        match totp_from_base32(secret) {
            Some(t) => totp_verify(&t, code, VERIFY_PERIOD_SECS, now as u64),
            None => false,
        }
    }
}

pub fn totp(config: &EnvConfig) -> (r: Totp)
    ensures
        r.issuer() == config.app_name@,
{
    Totp::init(config)
}

} // verus!
