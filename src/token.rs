use vstd::prelude::*;

use crate::error::{AuthError, ErrorKind, MSG_TOKEN_EXPIRED, MSG_TOKEN_INVALID};

verus! {

#[verifier::external_type_specification]
#[verifier::external_body]
pub struct ExJwtError(jsonwebtoken::errors::Error);

/// The compact HS256 token that `jsonwebtoken::encode` produces for the claims
/// `{sub, exp}` under the given secret.
pub uninterp spec fn hs256_token(sub: Seq<char>, exp: int, secret: Seq<char>) -> Seq<char>;

/// What `jsonwebtoken::decode` recovers from a token under a secret, with the expiry
/// left unchecked: the claims `(sub, exp)` when the structure and the HS256 signature
/// check out, and `None` otherwise.
pub uninterp spec fn hs256_claims(token: Seq<char>, secret: Seq<char>) -> Option<(Seq<char>, int)>;

/// Relies on `jsonwebtoken::encode` with an HS256 header: it fails only on a key of another
/// algorithm family or claims that do not serialize, neither of which can happen for an HMAC
/// key and a map of a string and an integer. The token is a function of the claims and the
/// key, three parts joined by dots, and `decode` with the same key gives the claims back (the
/// crate requires `exp` to read as an unsigned number).
#[verifier::external_body]
fn encode_hs256(sub: &str, exp: i64, secret: &str) -> (r: Result<String, jsonwebtoken::errors::Error>)
    ensures
        r is Ok,
        r matches Ok(t) ==> t@ == hs256_token(sub@, exp as int, secret@) && t@.len() > 0,
        r matches Ok(t) ==> (exp >= 0 ==> hs256_claims(t@, secret@) == Some((sub@, exp as int))),
{
    let mut claims = serde_json::Map::new();
    claims.insert("sub".to_string(), serde_json::Value::from(sub));
    claims.insert("exp".to_string(), serde_json::Value::from(exp));
    let header = jsonwebtoken::Header::new(jsonwebtoken::Algorithm::HS256);
    jsonwebtoken::encode(&header, &claims, &jsonwebtoken::EncodingKey::from_secret(secret.as_bytes()))
}

/// Relies on `jsonwebtoken::decode` (HS256 only, signature checked, `exp` required but
/// not compared with the clock): yields the `sub` and `exp` claims of a genuine token.
#[verifier::external_body]
fn decode_hs256(token: &str, secret: &str) -> (r: Option<(String, i64)>)
    ensures
        match r {
            Some(c) => hs256_claims(token@, secret@) == Some((c.0@, c.1 as int)),
            None => hs256_claims(token@, secret@) is None,
        },
{
    let mut validation = jsonwebtoken::Validation::new(jsonwebtoken::Algorithm::HS256);
    validation.validate_exp = false;
    let key = jsonwebtoken::DecodingKey::from_secret(secret.as_bytes());
    let data = jsonwebtoken::decode::<serde_json::Map<String, serde_json::Value>>(token, &key, &validation).ok()?;
    let sub = data.claims.get("sub")?.as_str()?.to_string();
    let exp = data.claims.get("exp")?.as_i64()?;
    Some((sub, exp))
}

/// Relies on `chrono::Utc::now`: the current time in whole seconds since the Unix epoch
/// (chrono stops the process on a clock set before the epoch).
#[verifier::external_body]
pub(crate) fn now_unix() -> (r: i64)
    ensures
        r >= 0,
{
    chrono::Utc::now().timestamp()
}

/// The two token classes; each is signed with its own secret.
#[derive(Clone, Copy, Debug, PartialEq, Eq, Structural)]
pub enum TokenClass {
    Access,
    Refresh,
}

/// Why a token was refused. The two kinds stay apart up to the caller.
#[derive(Clone, Copy, Debug, PartialEq, Eq, Structural)]
pub enum TokenError {
    /// The signature checks out but the expiry lies in the past.
    Expired,
    /// Bad signature, wrong secret, or a malformed token.
    Invalid,
}

impl TokenError {
    pub fn to_auth_error(&self) -> (e: AuthError)
        ensures
            e.kind == ErrorKind::Unauthenticated,
            *self == TokenError::Expired ==> e.message@ == MSG_TOKEN_EXPIRED@,
            *self == TokenError::Invalid ==> e.message@ == MSG_TOKEN_INVALID@,
    {
        match self {
            TokenError::Expired => AuthError::new(ErrorKind::Unauthenticated, MSG_TOKEN_EXPIRED),
            TokenError::Invalid => AuthError::new(ErrorKind::Unauthenticated, MSG_TOKEN_INVALID),
        }
    }
}

/// The secrets and lifetimes (in seconds) used to issue tokens, and the bcrypt cost
/// used to hash secrets.
#[derive(Clone, Debug)]
pub struct AuthConfig {
    pub access_secret: String,
    pub refresh_secret: String,
    pub access_token_duration: i64,
    pub refresh_token_duration: i64,
    pub password_cost: u32,
}

impl AuthConfig {
    /// Both lifetimes are positive.
    pub open spec fn wf(&self) -> bool {
        self.access_token_duration > 0 && self.refresh_token_duration > 0
    }

    pub open spec fn secret_of(&self, class: TokenClass) -> Seq<char> {
        match class {
            TokenClass::Access => self.access_secret@,
            TokenClass::Refresh => self.refresh_secret@,
        }
    }
}

/// The claims a token carries: its subject and its expiry in seconds since the epoch.
#[derive(Clone, Debug)]
pub struct Token {
    pub sub: String,
    pub exp: i64,
}

/// The outcome of validating claims (or their absence) at time `now`.
pub open spec fn validation_outcome(claims: Option<(Seq<char>, int)>, now: int) -> Result<(Seq<char>, int), TokenError> {
    match claims {
        None => Err(TokenError::Invalid),
        Some(c) => if c.1 < now { Err(TokenError::Expired) } else { Ok(c) },
    }
}

/// The outcome of validating `token` under `secret` at time `now`.
pub open spec fn validate_spec(token: Seq<char>, secret: Seq<char>, now: int) -> Result<(Seq<char>, int), TokenError> {
    validation_outcome(hs256_claims(token, secret), now)
}

/// The pair `(access, refresh)` is what issuing for `sub` at `now` under `cfg` yields.
pub open spec fn pair_issued(sub: Seq<char>, now: int, cfg: AuthConfig, access: Seq<char>, refresh: Seq<char>) -> bool {
    let exp_a = now + cfg.access_token_duration;
    let exp_r = now + cfg.refresh_token_duration;
    &&& access.len() > 0 && refresh.len() > 0
    &&& access == hs256_token(sub, exp_a, cfg.access_secret@)
    &&& refresh == hs256_token(sub, exp_r, cfg.refresh_secret@)
    &&& exp_a >= 0 ==> hs256_claims(access, cfg.access_secret@) == Some((sub, exp_a))
    &&& exp_r >= 0 ==> hs256_claims(refresh, cfg.refresh_secret@) == Some((sub, exp_r))
}

/// The pair `(access, refresh)` is what issuing for `sub` under `cfg` yields at some time
/// since the epoch.
pub open spec fn pair_issued_for(sub: Seq<char>, cfg: AuthConfig, access: Seq<char>, refresh: Seq<char>) -> bool {
    exists|now: int| now >= 0 && #[trigger] pair_issued(sub, now, cfg, access, refresh)
}

impl Token {
    pub fn new(sub: String, expiration: i64) -> (t: Token)
        ensures
            t.sub == sub,
            t.exp == expiration,
    {
        Token { sub, exp: expiration }
    }

    /// Signs these claims with `secret`.
    fn create_token(&self, secret: &str) -> (r: Result<String, AuthError>)
        ensures
            r is Ok,
            r matches Ok(t) ==> t@ == hs256_token(self.sub@, self.exp as int, secret@) && t@.len() > 0,
            r matches Ok(t) ==> (self.exp >= 0 ==> hs256_claims(t@, secret@) == Some((self.sub@, self.exp as int))),
            r matches Err(e) ==> e.kind == ErrorKind::Internal,
    {
        match encode_hs256(self.sub.as_str(), self.exp, secret) {
            Ok(t) => Ok(t),
            Err(_) => Err(AuthError::new(ErrorKind::Internal, "Failed to create token")),
        }
    }

    /// Issues an access and a refresh token for `sub` at time `now`, each expiring after its
    /// own lifetime and signed with its own secret. Fails as a whole if either signing fails
    /// or an expiry does not fit the clock's range.
    pub fn issue_pair(sub: &str, now: i64, config: &AuthConfig) -> (r: Result<(String, String), AuthError>)
        ensures
            r matches Ok(p) ==> pair_issued(sub@, now as int, *config, p.0@, p.1@),
            r matches Err(e) ==> e.kind == ErrorKind::Internal,
            (now as int + config.access_token_duration > i64::MAX
                || now as int + config.refresh_token_duration > i64::MAX
                || now as int + config.access_token_duration < i64::MIN
                || now as int + config.refresh_token_duration < i64::MIN) <==> r is Err,
    {
        let exp_access = match now.checked_add(config.access_token_duration) {
            Some(e) => e,
            None => return Err(AuthError::new(ErrorKind::Internal, "Failed to generate tokens")),
        };
        let exp_refresh = match now.checked_add(config.refresh_token_duration) {
            Some(e) => e,
            None => return Err(AuthError::new(ErrorKind::Internal, "Failed to generate tokens")),
        };
        let access_claims = Token::new(String::from_str(sub), exp_access);
        let refresh_claims = Token::new(String::from_str(sub), exp_refresh);
        let access = access_claims.create_token(config.access_secret.as_str())?;
        let refresh = refresh_claims.create_token(config.refresh_secret.as_str())?;
        Ok((access, refresh))
    }

    /// Issues a token pair for `user_id`, expiring relative to the current time. It fails
    /// only when an expiry does not fit the clock's range (see `issue_pair`).
    pub fn create_tokens(user_id: String, config: &AuthConfig) -> (r: Result<(String, String), AuthError>)
        ensures
            r matches Ok(p) ==> pair_issued_for(user_id@, *config, p.0@, p.1@),
            r matches Err(e) ==> e.kind == ErrorKind::Internal,
    {
        let now = now_unix();
        let r = Token::issue_pair(user_id.as_str(), now, config);
        proof {
            if r is Ok {
                let p = r->Ok_0;
                assert(pair_issued(user_id@, now as int, *config, p.0@, p.1@));
            }
        }
        r
    }

    /// Checks `token` against `secret` at time `now`: a token whose signature does not verify
    /// is `Invalid`; one that verifies but expired before `now` is `Expired`.
    pub fn validate_token_at(token_str: &str, secret_key: &str, now: i64) -> (r: Result<Token, TokenError>)
        ensures
            match r {
                Ok(t) => validate_spec(token_str@, secret_key@, now as int) == Ok::<(Seq<char>, int), TokenError>((t.sub@, t.exp as int)),
                Err(e) => validate_spec(token_str@, secret_key@, now as int) == Err::<(Seq<char>, int), TokenError>(e),
            },
    {
        match decode_hs256(token_str, secret_key) {
            None => Err(TokenError::Invalid),
            Some((sub, exp)) => {
                if exp < now {
                    Err(TokenError::Expired)
                } else {
                    Ok(Token { sub, exp })
                }
            },
        }
    }

    /// Checks `token` against `secret` at the current time. Whether it is `Invalid` does
    /// not depend on the time; an `Expired` token carried a verified signature.
    pub fn validate_token(token_str: &str, secret_key: &str) -> (r: Result<Token, TokenError>)
        ensures
            (r == Err::<Token, TokenError>(TokenError::Invalid)) <==> hs256_claims(token_str@, secret_key@) is None,
            r matches Ok(t) ==> hs256_claims(token_str@, secret_key@) == Some((t.sub@, t.exp as int)),
    {
        let now = now_unix();
        Token::validate_token_at(token_str, secret_key, now)
    }
}

/// A freshly issued token validates, with the matching secret and at the time it was
/// issued, to the subject it was issued for.
pub proof fn lemma_issued_pair_validates(sub: Seq<char>, now: int, cfg: AuthConfig, access: Seq<char>, refresh: Seq<char>)
    requires
        cfg.wf(),
        now >= 0,
        pair_issued(sub, now, cfg, access, refresh),
    ensures
        validate_spec(access, cfg.access_secret@, now) == Ok::<(Seq<char>, int), TokenError>((sub, now + cfg.access_token_duration)),
        validate_spec(refresh, cfg.refresh_secret@, now) == Ok::<(Seq<char>, int), TokenError>((sub, now + cfg.refresh_token_duration)),
{
}

/// A token whose signature does not verify under a secret (as one signed with the other
/// class's secret) is refused as `Invalid`, and never as `Expired`: an `Expired` verdict
/// only comes for a token whose signature verified.
pub proof fn lemma_unverified_token_invalid(token: Seq<char>, secret: Seq<char>, now: int)
    ensures
        hs256_claims(token, secret) is None ==> validate_spec(token, secret, now) == Err::<(Seq<char>, int), TokenError>(TokenError::Invalid),
        validate_spec(token, secret, now) == Err::<(Seq<char>, int), TokenError>(TokenError::Expired) ==> hs256_claims(token, secret) is Some,
{
}

/// A genuine token validated after its expiry fails as `Expired`, while a token whose
/// signature does not verify (a tampered one) fails as `Invalid`.
pub proof fn lemma_expired_distinct_from_invalid(token: Seq<char>, tampered: Seq<char>, secret: Seq<char>, sub: Seq<char>, exp: int, now: int)
    requires
        hs256_claims(token, secret) == Some((sub, exp)),
        now > exp,
        hs256_claims(tampered, secret) is None,
    ensures
        validate_spec(token, secret, now) == Err::<(Seq<char>, int), TokenError>(TokenError::Expired),
        validate_spec(tampered, secret, now) == Err::<(Seq<char>, int), TokenError>(TokenError::Invalid),
{
}

} // verus!
