use vstd::prelude::*;

use crate::dto::{ForgotPasswordDto, LoginDto, LogoutDto, RegisterDto, SendOtpDto, VerifyEmailDto};
use crate::entity::{status_str, User, UserSessions, UserStatus, UserView, SessionView};
use crate::error::{
    AuthError, ErrorKind, MSG_INVALID_CREDENTIALS, MSG_INVALID_OTP, MSG_INVALID_REFRESH_TOKEN, MSG_TOKEN_EXPIRED,
    MSG_TOKEN_INVALID, MSG_TOKEN_REVOKED, MSG_USER_EXISTS, MSG_USER_NOT_FOUND, MSG_VERIFY_EMAIL_FIRST,
};
use crate::otp::{email_otp, is_code, otp_accepts, otp_key, otp_key_spec, OTP_LENGTH};
use crate::password::{hash_password, password_matches, verify_password};
use crate::ports::{activated, OtpMailer, UserPort, UserSessionPort};
use crate::store::{blacklist_token, ensure_not_blacklisted, lookup, opt_view, revoked, RedisPort, BLACKLIST_SENTINEL};
use crate::config::digit_char;
use crate::token::{hs256_claims, now_unix, pair_issued, pair_issued_for, validate_spec, AuthConfig, Token, TokenError};

verus! {

#[verifier::external_type_specification]
#[verifier::external_body]
pub struct ExJsonError(serde_json::Error);

pub open spec fn hex_digit(n: nat) -> char {
    if n < 10 { digit_char(n) } else if n == 10 { 'a' } else if n == 11 { 'b' } else if n == 12 { 'c' }
    else if n == 13 { 'd' } else if n == 14 { 'e' } else { 'f' }
}

/// How `serde_json` writes one character inside a string literal: the quote, the backslash
/// and the control characters are escaped, everything else stands as it is.
pub open spec fn json_escape(c: char) -> Seq<char> {
    if c == '"' {
        seq!['\\', '"']
    } else if c == '\\' {
        seq!['\\', '\\']
    } else if c == '\u{8}' {
        seq!['\\', 'b']
    } else if c == '\t' {
        seq!['\\', 't']
    } else if c == '\n' {
        seq!['\\', 'n']
    } else if c == '\u{c}' {
        seq!['\\', 'f']
    } else if c == '\r' {
        seq!['\\', 'r']
    } else if (c as u32) < 0x20 {
        seq!['\\', 'u', '0', '0', hex_digit((c as u32 / 16) as nat), hex_digit((c as u32 % 16) as nat)]
    } else {
        seq![c]
    }
}

pub open spec fn json_escaped(s: Seq<char>) -> Seq<char>
    decreases s.len(),
{
    if s.len() == 0 {
        Seq::empty()
    } else {
        json_escaped(s.drop_last()) + json_escape(s.last())
    }
}

/// The JSON string literal for a string.
pub open spec fn json_string(s: Seq<char>) -> Seq<char> {
    seq!['"'] + json_escaped(s) + seq!['"']
}

/// Relies on `serde_json::to_string` applied to a `str`: the string between quotes, with the
/// quote, the backslash and the control characters escaped (`\b \t \n \f \r`, others as
/// `\u00xx` in lowercase hex).
#[verifier::external_body]
fn quote_json(s: &str) -> (r: Result<String, serde_json::Error>)
    ensures
        r matches Ok(q) ==> q@ == json_string(s@),
{
    serde_json::to_string(s)
}

/// The public profile of an account, as returned by registration.
#[derive(Clone, Debug)]
pub struct UserProfile {
    pub id: String,
    pub name: String,
    pub email: String,
}

/// The token pair returned by a successful login.
#[derive(Clone, Debug)]
pub struct LoginData {
    pub access_token: String,
    pub refresh_token: String,
}

pub open spec fn account_of(acc: Map<Seq<char>, UserView>, email: Seq<char>) -> Option<UserView> {
    if acc.contains_key(email) {
        Some(acc[email])
    } else {
        None
    }
}

pub open spec fn opt_user_view(o: Option<User>) -> Option<UserView> {
    match o {
        Some(u) => Some(u@),
        None => None,
    }
}

/// The error (class and text) a login attempt ends in, given the account found under
/// the email and whether the secret matched it; `None` when the attempt passes.
/// An unknown email and a wrong secret end alike; an account that is not `Active`
/// is told to verify its email.
pub open spec fn login_verdict(account: Option<UserView>, secret_ok: bool) -> Option<(ErrorKind, Seq<char>)> {
    match account {
        None => Some((ErrorKind::Unauthenticated, MSG_INVALID_CREDENTIALS@)),
        Some(u) => if u.status != UserStatus::Active {
            Some((ErrorKind::PermissionDenied, MSG_VERIFY_EMAIL_FIRST@))
        } else if !secret_ok {
            Some((ErrorKind::Unauthenticated, MSG_INVALID_CREDENTIALS@))
        } else {
            None
        },
    }
}

/// Decides a login attempt from the account found and the secret check.
pub fn check_login(account: &Option<User>, secret_ok: bool) -> (r: Result<(), AuthError>)
    ensures
        match r {
            Ok(_) => login_verdict(opt_user_view(*account), secret_ok) is None,
            Err(e) => login_verdict(opt_user_view(*account), secret_ok) == Some((e.kind, e.message@)),
        },
{
    match account {
        None => Err(AuthError::new(ErrorKind::Unauthenticated, MSG_INVALID_CREDENTIALS)),
        Some(u) => {
            if u.status != UserStatus::Active {
                Err(AuthError::new(ErrorKind::PermissionDenied, MSG_VERIFY_EMAIL_FIRST))
            } else if !secret_ok {
                Err(AuthError::new(ErrorKind::Unauthenticated, MSG_INVALID_CREDENTIALS))
            } else {
                Ok(())
            }
        },
    }
}

/// Decides a one-time-code check from the stored code (if any) and the supplied one:
/// accepted exactly when a code is stored and equals the supplied one.
pub fn check_otp(email: &str, stored: &Option<String>, supplied: &str) -> (r: Result<(), AuthError>)
    ensures
        r is Ok <==> opt_view(*stored) == Some(supplied@),
        r matches Err(e) ==> e.kind == ErrorKind::InvalidArgument && e.message@ == MSG_INVALID_OTP@,
{
    match stored {
        Some(code) => {
            if email_otp().verify_otp(email, code.as_str(), supplied) {
                Ok(())
            } else {
                Err(AuthError::new(ErrorKind::InvalidArgument, MSG_INVALID_OTP))
            }
        },
        None => Err(AuthError::new(ErrorKind::InvalidArgument, MSG_INVALID_OTP)),
    }
}

/// The profile cached under an access token: id, name, email and status as a JSON object.
pub open spec fn user_json(u: UserView) -> Seq<char> {
    "{\"id\":"@ + json_string(u.id) + ",\"name\":"@ + json_string(u.name) + ",\"email\":"@
        + json_string(u.email) + ",\"status\":"@ + json_string(status_str(u.status)) + "}"@
}

fn profile_json(user: &User) -> (r: Result<String, AuthError>)
    ensures
        r matches Ok(s) ==> s@ == user_json(user@),
        r matches Err(e) ==> e.kind == ErrorKind::Internal,
{
    let id = quote_json(user.id.as_str());
    let name = quote_json(user.name.as_str());
    let email = quote_json(user.email.as_str());
    let status = quote_json(user.status.as_str());
    match (id, name, email, status) {
        (Ok(id), Ok(name), Ok(email), Ok(status)) => {
            let mut s = String::from_str("{\"id\":");
            s.append(id.as_str());
            s.append(",\"name\":");
            s.append(name.as_str());
            s.append(",\"email\":");
            s.append(email.as_str());
            s.append(",\"status\":");
            s.append(status.as_str());
            s.append("}");
            Ok(s)
        },
        _ => Err(AuthError::new(ErrorKind::Internal, "Failed to serialize user")),
    }
}

/// The prefix of an `Authorization` value that carries a bearer token.
pub const BEARER_PREFIX: &'static str = "Bearer ";

/// Takes the token out of an `Authorization` value of the form `Bearer <token>`;
/// a missing value or another scheme is an authentication failure.
pub fn extract_token_from_metadata(authorization: Option<&str>) -> (r: Result<String, AuthError>)
    ensures
        r matches Ok(t) ==> authorization matches Some(h) && h@ == BEARER_PREFIX@ + t@,
        (authorization matches Some(h) && h@.len() >= BEARER_PREFIX@.len()
            && h@.subrange(0, BEARER_PREFIX@.len() as int) == BEARER_PREFIX@) ==> r is Ok,
        r matches Err(e) ==> e.kind == ErrorKind::Unauthenticated,
{
    match authorization {
        None => Err(AuthError::new(ErrorKind::Unauthenticated, "Authorization token is missing")),
        Some(h) => {
            let n = BEARER_PREFIX.unicode_len();
            let len = h.unicode_len();
            if len >= n {
                let head = h.substring_char(0, n);
                if String::from_str(head) == String::from_str(BEARER_PREFIX) {
                    let rest = h.substring_char(n, len);
                    assert(h@ =~= head@ + rest@);
                    return Ok(String::from_str(rest));
                }
            }
            Err(AuthError::new(ErrorKind::Unauthenticated, "Invalid token scheme"))
        },
    }
}

/// The store and the access secret accept `token` for a protected call at time `now`: not
/// revoked, carrying a valid signature and an expiry not yet past.
pub open spec fn access_token_accepted(entries: Map<Seq<char>, Seq<char>>, token: Seq<char>, secret: Seq<char>, now: int) -> bool {
    !revoked(lookup(entries, token)) && validate_spec(token, secret, now) is Ok
}

/// Accepts the bearer token of an `Authorization` value for a protected call at the current
/// time: it must not be revoked, and must carry a valid signature under the access secret
/// and an expiry not yet past.
pub fn validate_access_token<R: RedisPort>(store: &R, authorization: Option<&str>, config: &AuthConfig) -> (r: Result<(), AuthError>)
    ensures
        r is Ok ==> (authorization matches Some(h) && exists|t: Seq<char>, now: int| now >= 0
            && h@ == BEARER_PREFIX@ + t && #[trigger] access_token_accepted(store.entries(), t, config.access_secret@, now)),
        authorization is None ==> r is Err,
        forall|t: Seq<char>| (authorization matches Some(h) && h@ == BEARER_PREFIX@ + t
            && (revoked(lookup(store.entries(), t)) || #[trigger] hs256_claims(t, config.access_secret@) is None)) ==> r is Err,
        r matches Err(e) ==> e.kind == ErrorKind::Unauthenticated || e.kind == ErrorKind::Internal,
{
    let token = extract_token_from_metadata(authorization)?;
    proof {
        assert forall|t: Seq<char>| (authorization matches Some(h) && h@ == #[trigger] (BEARER_PREFIX@ + t)) implies t == token@ by {
            let h = authorization->Some_0;
            assert(t =~= h@.subrange(BEARER_PREFIX@.len() as int, h@.len() as int));
            assert(token@ =~= h@.subrange(BEARER_PREFIX@.len() as int, h@.len() as int));
        }
    }
    ensure_not_blacklisted(store, token.as_str())?;
    let now = now_unix();
    match Token::validate_token_at(token.as_str(), config.access_secret.as_str(), now) {
        Ok(_) => {
            assert(access_token_accepted(store.entries(), token@, config.access_secret@, now as int));
            Ok(())
        },
        Err(e) => Err(e.to_auth_error()),
    }
}

pub open spec fn token_error_message(e: TokenError) -> Seq<char> {
    match e {
        TokenError::Expired => MSG_TOKEN_EXPIRED@,
        TokenError::Invalid => MSG_TOKEN_INVALID@,
    }
}

/// The error (class and text) a logout at time `now` ends in, given the store's entries;
/// `None` when it passes. The access token is checked first, then the refresh token, which
/// must carry the same subject.
pub open spec fn logout_verdict(entries: Map<Seq<char>, Seq<char>>, cfg: AuthConfig, access: Seq<char>, refresh: Seq<char>, now: int) -> Option<(ErrorKind, Seq<char>)> {
    let va = validate_spec(access, cfg.access_secret@, now);
    let vr = validate_spec(refresh, cfg.refresh_secret@, now);
    if revoked(lookup(entries, access)) {
        Some((ErrorKind::Unauthenticated, MSG_TOKEN_REVOKED@))
    } else if va is Err {
        Some((ErrorKind::Unauthenticated, token_error_message(va->Err_0)))
    } else if revoked(lookup(entries, refresh)) {
        Some((ErrorKind::Unauthenticated, MSG_TOKEN_REVOKED@))
    } else if vr is Err || va->Ok_0.0 != vr->Ok_0.0 {
        Some((ErrorKind::Unauthenticated, MSG_INVALID_REFRESH_TOKEN@))
    } else {
        None
    }
}

/// What a logout at time `now` leaves behind: refused exactly as `logout_verdict` says
/// (or `Internal` on a store failure) with the store unchanged; on success the refresh token
/// is revoked, and the access token too unless that best-effort write failed.
pub open spec fn logout_post(before: Map<Seq<char>, Seq<char>>, after: Map<Seq<char>, Seq<char>>, cfg: AuthConfig,
    access: Seq<char>, refresh: Seq<char>, now: int, r: Result<String, AuthError>) -> bool {
    let verdict = logout_verdict(before, cfg, access, refresh, now);
    &&& verdict is Some ==> r is Err
    &&& r matches Err(e) ==> after == before && (e.kind == ErrorKind::Internal || verdict == Some((e.kind, e.message@)))
    &&& r matches Ok(m) ==> m@ == "Logout successful"@ && verdict is None
        && (after == before.insert(refresh, BLACKLIST_SENTINEL@).insert(access, BLACKLIST_SENTINEL@)
            || after == before.insert(refresh, BLACKLIST_SENTINEL@))
}

/// Composes credential checks, token issuance, revocation and one-time codes per use case.
pub struct AuthUseCase<U: UserPort, S: UserSessionPort, R: RedisPort, M: OtpMailer> {
    pub adapter: U,
    pub session: S,
    pub redis_adapter: R,
    pub mailer: M,
    pub config: AuthConfig,
}

impl<U: UserPort, S: UserSessionPort, R: RedisPort, M: OtpMailer> AuthUseCase<U, S, R, M> {
    pub fn new(adapter: U, session: S, redis_adapter: R, mailer: M, config: AuthConfig) -> (r: Self)
        ensures
            r.adapter == adapter,
            r.session == session,
            r.redis_adapter == redis_adapter,
            r.mailer == mailer,
            r.config == config,
    {
        AuthUseCase { adapter, session, redis_adapter, mailer, config }
    }

    /// Creates an `Inactive` account holding the hash of the secret. No token is issued.
    pub fn register(&mut self, request: RegisterDto) -> (r: Result<UserProfile, AuthError>)
        ensures
            final(self).session == old(self).session,
            final(self).redis_adapter == old(self).redis_adapter,
            final(self).mailer == old(self).mailer,
            final(self).config == old(self).config,
            r matches Ok(p) ==> {
                let acc = final(self).adapter.accounts();
                let u = acc[request.email@];
                &&& !old(self).adapter.accounts().contains_key(request.email@)
                &&& acc.contains_key(request.email@)
                &&& acc == old(self).adapter.accounts().insert(request.email@, u)
                &&& u.id == p.id@ && u.name == request.name@ && u.email == request.email@
                &&& u.status == UserStatus::Inactive
                &&& password_matches(request.password@, u.password)
                &&& p.name@ == request.name@ && p.email@ == request.email@
            },
            old(self).adapter.accounts().contains_key(request.email@) ==> r is Err,
            r matches Err(e) ==> final(self).adapter.accounts() == old(self).adapter.accounts() && (
                (e.kind == ErrorKind::AlreadyExists && e.message@ == MSG_USER_EXISTS@
                    && old(self).adapter.accounts().contains_key(request.email@))
                || e.kind == ErrorKind::Internal),
    {
        let existing = match self.adapter.find_by_email(request.email.as_str()) {
            Ok(o) => o,
            Err(_) => return Err(AuthError::new(ErrorKind::Internal, "Failed to query user")),
        };
        if existing.is_some() {
            return Err(AuthError::new(ErrorKind::AlreadyExists, MSG_USER_EXISTS));
        }
        let hashed = match hash_password(request.password.as_str(), self.config.password_cost) {
            Ok(h) => h,
            Err(_) => return Err(AuthError::new(ErrorKind::Internal, "Failed to hash password")),
        };
        let user = User::new(request.name, request.email, hashed, UserStatus::Inactive);
        match self.adapter.save(&user) {
            Ok(_) => {},
            Err(_) => return Err(AuthError::new(ErrorKind::Internal, "Failed to save user")),
        }
        Ok(UserProfile { id: user.id, name: user.name, email: user.email })
    }

    /// Logs in: an unknown email and a wrong secret fail alike; an account that is not
    /// `Active` is told to verify its email. A refused login writes nothing. On success a
    /// token pair is issued, the profile is cached under the access token, and a login record
    /// is written.
    pub fn login(&mut self, request: LoginDto, ip: String, device: String, location: String) -> (r: Result<LoginData, AuthError>)
        ensures
            final(self).adapter == old(self).adapter,
            final(self).mailer == old(self).mailer,
            final(self).config == old(self).config,
            r is Err ==> final(self).session.records() == old(self).session.records(),
            (r matches Err(e) && e.kind != ErrorKind::Internal) ==> final(self).redis_adapter.entries()
                == old(self).redis_adapter.entries(),
            ({
                let acc = account_of(old(self).adapter.accounts(), request.email@);
                let secret_ok = acc is Some && password_matches(request.password@, acc->Some_0.password);
                &&& login_verdict(acc, secret_ok) is Some ==> r is Err
                &&& r matches Err(e) ==> e.kind == ErrorKind::Internal || login_verdict(acc, secret_ok) == Some((e.kind, e.message@))
                &&& r matches Ok(d) ==> {
                    let u = acc->Some_0;
                    &&& login_verdict(acc, secret_ok) is None
                    &&& pair_issued_for(u.id, old(self).config, d.access_token@, d.refresh_token@)
                    &&& final(self).redis_adapter.entries() == old(self).redis_adapter.entries().insert(d.access_token@, user_json(u))
                    &&& final(self).session.records() == old(self).session.records().push(SessionView {
                        user_id: u.id, login_ip: ip@, login_device: device@, login_location: location@ })
                }
            }),
    {
        let found = match self.adapter.find_by_email(request.email.as_str()) {
            Ok(o) => o,
            Err(_) => return Err(AuthError::new(ErrorKind::Internal, "Failed to query user")),
        };
        let secret_ok = match &found {
            Some(u) => u.status == UserStatus::Active && verify_password(request.password.as_str(), u.password.as_str()),
            None => false,
        };
        check_login(&found, secret_ok)?;
        let user = match found {
            Some(u) => u,
            None => return Err(AuthError::new(ErrorKind::Unauthenticated, MSG_INVALID_CREDENTIALS)),
        };
        let now = now_unix();
        let (access_token, refresh_token) = match Token::issue_pair(user.id.as_str(), now, &self.config) {
            Ok(p) => p,
            Err(_) => return Err(AuthError::new(ErrorKind::Internal, "Failed to generate tokens")),
        };
        let ghost issued_to = user.id@;
        let user_json = profile_json(&user)?;
        match self.redis_adapter.set_value(access_token.as_str(), user_json.as_str()) {
            Ok(_) => {},
            Err(_) => return Err(AuthError::new(ErrorKind::Internal, "Failed to cache user")),
        }
        let record = UserSessions::new(user.id, ip, device, location);
        match self.session.save(&record) {
            Ok(_) => {},
            Err(_) => return Err(AuthError::new(ErrorKind::Internal, "Failed to save user session")),
        }
        assert(pair_issued(issued_to, now as int, self.config, access_token@, refresh_token@));
        assert(pair_issued_for(issued_to, self.config, access_token@, refresh_token@));
        Ok(LoginData { access_token, refresh_token })
    }

    /// Logs out at time `now`: the access token must be accepted for a protected call, the
    /// refresh token must not be revoked, must verify under the refresh secret, must not have
    /// expired and must carry the same subject as the access token. The refresh token is then
    /// revoked (a failure here fails the call); revoking the access token is best effort.
    pub fn logout_at(&mut self, request: LogoutDto, access_token: String, now: i64) -> (r: Result<String, AuthError>)
        ensures
            final(self).adapter == old(self).adapter,
            final(self).session == old(self).session,
            final(self).mailer == old(self).mailer,
            final(self).config == old(self).config,
            logout_post(old(self).redis_adapter.entries(), final(self).redis_adapter.entries(), old(self).config,
                access_token@, request.refresh_token@, now as int, r),
    {
        ensure_not_blacklisted(&self.redis_adapter, access_token.as_str())?;
        let access_claims = match Token::validate_token_at(access_token.as_str(), self.config.access_secret.as_str(), now) {
            Ok(t) => t,
            Err(e) => return Err(e.to_auth_error()),
        };
        let refresh_token = request.refresh_token.as_str();
        ensure_not_blacklisted(&self.redis_adapter, refresh_token)?;
        let refresh_claims = match Token::validate_token_at(refresh_token, self.config.refresh_secret.as_str(), now) {
            Ok(t) => t,
            Err(_) => return Err(AuthError::new(ErrorKind::Unauthenticated, MSG_INVALID_REFRESH_TOKEN)),
        };
        if !(refresh_claims.sub == access_claims.sub) {
            return Err(AuthError::new(ErrorKind::Unauthenticated, MSG_INVALID_REFRESH_TOKEN));
        }
        match blacklist_token(&mut self.redis_adapter, refresh_token) {
            Ok(_) => {},
            Err(_) => return Err(AuthError::new(ErrorKind::Internal, "Logout failed")),
        }
        let _ = blacklist_token(&mut self.redis_adapter, access_token.as_str());
        Ok(String::from_str("Logout successful"))
    }

    /// Logs out at the current time (see `logout_at`).
    pub fn logout(&mut self, request: LogoutDto, access_token: String) -> (r: Result<String, AuthError>)
        ensures
            final(self).adapter == old(self).adapter,
            final(self).session == old(self).session,
            final(self).mailer == old(self).mailer,
            final(self).config == old(self).config,
            exists|now: int| now >= 0 && #[trigger] logout_post(old(self).redis_adapter.entries(),
                final(self).redis_adapter.entries(), old(self).config, access_token@, request.refresh_token@, now, r),
    {
        let now = now_unix();
        let ghost before = self.redis_adapter.entries();
        let ghost access = access_token@;
        let ghost refresh = request.refresh_token@;
        let r = self.logout_at(request, access_token, now);
        assert(logout_post(before, self.redis_adapter.entries(), self.config, access, refresh, now as int, r));
        r
    }

    /// Stores a fresh six-character code for an existing account (replacing any earlier one)
    /// and hands the same code to the mailer for that email, without waiting for delivery.
    /// A refused request stores and sends nothing.
    pub fn send_otp(&mut self, request: SendOtpDto) -> (r: Result<String, AuthError>)
        ensures
            final(self).adapter == old(self).adapter,
            final(self).session == old(self).session,
            final(self).config == old(self).config,
            ({
                let key = otp_key_spec(request.email@);
                let after = final(self).redis_adapter.entries();
                &&& !old(self).adapter.accounts().contains_key(request.email@) ==> r is Err
                &&& r matches Ok(m) ==> m@ == "OTP request sent successfully"@
                    && old(self).adapter.accounts().contains_key(request.email@)
                    && after.contains_key(key) && is_code(after[key], OTP_LENGTH as nat)
                    && after == old(self).redis_adapter.entries().insert(key, after[key])
                    && final(self).mailer.sent() == old(self).mailer.sent().push((request.email@, after[key]))
                &&& r matches Err(e) ==> after == old(self).redis_adapter.entries()
                    && final(self).mailer.sent() == old(self).mailer.sent() && (
                    (e.kind == ErrorKind::NotFound && e.message@ == MSG_USER_NOT_FOUND@
                        && !old(self).adapter.accounts().contains_key(request.email@))
                    || e.kind == ErrorKind::Internal)
            }),
    {
        let existing = match self.adapter.find_by_email(request.email.as_str()) {
            Ok(o) => o,
            Err(_) => return Err(AuthError::new(ErrorKind::Internal, "Failed to lookup user")),
        };
        if existing.is_none() {
            return Err(AuthError::new(ErrorKind::NotFound, MSG_USER_NOT_FOUND));
        }
        let code = email_otp().generate_code(OTP_LENGTH);
        let key = otp_key(request.email.as_str());
        match self.redis_adapter.set_value(key.as_str(), code.as_str()) {
            Ok(_) => {},
            Err(_) => return Err(AuthError::new(ErrorKind::Internal, "Failed to set OTP")),
        }
        self.mailer.send_otp_email(request.email.as_str(), code.as_str());
        Ok(String::from_str("OTP request sent successfully"))
    }

    /// Looks up the account and the code stored for it; fails unless both exist and the
    /// supplied code matches.
    fn find_with_otp(&self, email: &str, supplied: &str) -> (r: Result<User, AuthError>)
        ensures
            ({
                let acc = self.adapter.accounts();
                &&& r matches Ok(u) ==> acc.contains_key(email@) && acc[email@] == u@
                    && otp_accepts(self.redis_adapter.entries(), email@, supplied@)
                &&& !acc.contains_key(email@) ==> r is Err
                &&& !otp_accepts(self.redis_adapter.entries(), email@, supplied@) ==> r is Err
                &&& r matches Err(e) ==> (e.kind == ErrorKind::NotFound && e.message@ == MSG_USER_NOT_FOUND@
                        && !acc.contains_key(email@))
                    || (e.kind == ErrorKind::InvalidArgument && e.message@ == MSG_INVALID_OTP@ && acc.contains_key(email@)
                        && !otp_accepts(self.redis_adapter.entries(), email@, supplied@))
                    || e.kind == ErrorKind::Internal
            }),
    {
        let user = match self.adapter.find_by_email(email) {
            Ok(Some(u)) => u,
            Ok(None) => return Err(AuthError::new(ErrorKind::NotFound, MSG_USER_NOT_FOUND)),
            Err(_) => return Err(AuthError::new(ErrorKind::Internal, "Failed to lookup user")),
        };
        let key = otp_key(email);
        let stored = match self.redis_adapter.get_value(key.as_str()) {
            Ok(v) => v,
            Err(_) => return Err(AuthError::new(ErrorKind::Internal, "Failed to get OTP")),
        };
        check_otp(email, &stored, supplied)?;
        Ok(user)
    }

    /// Activates the account when the supplied code matches the stored one. The code is
    /// taken out of the store in one atomic step before the account is activated, so that it
    /// is accepted once only; if activation then fails, the code is put back. A refused
    /// request changes nothing; a failed one leaves the account as it was, and the code stored
    /// unless putting it back failed too.
    pub fn verify_email(&mut self, request: VerifyEmailDto) -> (r: Result<String, AuthError>)
        ensures
            final(self).session == old(self).session,
            final(self).mailer == old(self).mailer,
            final(self).config == old(self).config,
            ({
                let acc = old(self).adapter.accounts();
                let store = old(self).redis_adapter.entries();
                let email = request.email@;
                &&& !acc.contains_key(email) ==> r is Err
                &&& !otp_accepts(store, email, request.otp@) ==> r is Err
                &&& r matches Ok(m) ==> m@ == "Email verified successfully"@
                    && acc.contains_key(email) && otp_accepts(store, email, request.otp@)
                    && final(self).adapter.accounts() == acc.insert(email, activated(acc[email]))
                    && final(self).redis_adapter.entries() == store.remove(otp_key_spec(email))
                &&& r matches Err(e) ==> final(self).adapter.accounts() == acc && (
                    final(self).redis_adapter.entries() == store
                    || (e.kind == ErrorKind::Internal && final(self).redis_adapter.entries() == store.remove(otp_key_spec(email))))
                &&& r matches Err(e) ==> (e.kind == ErrorKind::NotFound && e.message@ == MSG_USER_NOT_FOUND@
                        && !acc.contains_key(email))
                    || (e.kind == ErrorKind::InvalidArgument && e.message@ == MSG_INVALID_OTP@
                        && acc.contains_key(email) && !otp_accepts(store, email, request.otp@))
                    || e.kind == ErrorKind::Internal
                &&& (r matches Err(e) && e.kind != ErrorKind::Internal) ==> final(self).redis_adapter.entries() == store
            }),
    {
        let email = request.email.as_str();
        let supplied = request.otp.as_str();
        let _user = self.find_with_otp(email, supplied)?;
        let key = otp_key(email);
        let ghost store = self.redis_adapter.entries();
        let taken = match self.redis_adapter.pull_value(key.as_str()) {
            Ok(v) => v,
            Err(_) => return Err(AuthError::new(ErrorKind::Internal, "Failed to take OTP")),
        };
        assert(opt_view(taken) == Some(supplied@));
        match self.adapter.verify_email(email) {
            Ok(_) => Ok(String::from_str("Email verified successfully")),
            Err(_) => {
                let restored = self.redis_adapter.set_value(key.as_str(), supplied);
                proof {
                    if restored is Ok {
                        assert(store.remove(key@).insert(key@, supplied@) =~= store);
                    }
                }
                Err(AuthError::new(ErrorKind::Internal, "Failed to verify email"))
            },
        }
    }

    /// Replaces the secret when the supplied code matches the stored one; the code is
    /// deleted only after the new hash is stored. A refused request changes nothing, and no
    /// failure leaves the code deleted.
    pub fn forgot_password(&mut self, request: ForgotPasswordDto) -> (r: Result<String, AuthError>)
        ensures
            final(self).session == old(self).session,
            final(self).mailer == old(self).mailer,
            final(self).config == old(self).config,
            ({
                let acc = old(self).adapter.accounts();
                let store = old(self).redis_adapter.entries();
                let email = request.email@;
                &&& !acc.contains_key(email) ==> r is Err
                &&& !otp_accepts(store, email, request.otp@) ==> r is Err
                &&& r matches Ok(m) ==> {
                    let u = final(self).adapter.accounts()[email];
                    &&& m@ == "Password reset successfully"@
                    &&& acc.contains_key(email) && otp_accepts(store, email, request.otp@)
                    &&& final(self).adapter.accounts() == acc.insert(email, UserView { password: u.password, ..acc[email] })
                    &&& password_matches(request.password@, u.password)
                    &&& final(self).redis_adapter.entries() == store.remove(otp_key_spec(email))
                }
                &&& r is Err ==> final(self).redis_adapter.entries() == store
                &&& (r matches Err(e) && e.kind != ErrorKind::Internal) ==> final(self).adapter.accounts() == acc
                &&& r matches Err(e) ==> (e.kind == ErrorKind::NotFound && e.message@ == MSG_USER_NOT_FOUND@
                        && !acc.contains_key(email))
                    || (e.kind == ErrorKind::InvalidArgument && e.message@ == MSG_INVALID_OTP@
                        && acc.contains_key(email) && !otp_accepts(store, email, request.otp@))
                    || e.kind == ErrorKind::Internal
            }),
    {
        let _user = self.find_with_otp(request.email.as_str(), request.otp.as_str())?;
        let hashed = match hash_password(request.password.as_str(), self.config.password_cost) {
            Ok(h) => h,
            Err(_) => return Err(AuthError::new(ErrorKind::Internal, "Failed to hash new password")),
        };
        match self.adapter.update_password(request.email.as_str(), hashed.as_str()) {
            Ok(_) => {},
            Err(_) => return Err(AuthError::new(ErrorKind::Internal, "Failed to update password")),
        }
        let key = otp_key(request.email.as_str());
        match self.redis_adapter.delete_value(key.as_str()) {
            Ok(_) => {},
            Err(_) => return Err(AuthError::new(ErrorKind::Internal, "Failed to remove OTP")),
        }
        Ok(String::from_str("Password reset successfully"))
    }
}

/// A wrong secret for an existing `Active` account and an unknown email end in the same
/// error, class and text alike.
pub proof fn lemma_login_failures_indistinguishable(u: UserView, secret_ok: bool)
    requires
        u.status == UserStatus::Active,
    ensures
        login_verdict(Some(u), false) == login_verdict(None, secret_ok),
        login_verdict(None, secret_ok) == Some((ErrorKind::Unauthenticated, MSG_INVALID_CREDENTIALS@)),
{
}

/// Correct credentials for an `Inactive` account end in the distinct "verify your email"
/// error, not in the generic credential error.
pub proof fn lemma_inactive_login_told_to_verify(u: UserView)
    requires
        u.status == UserStatus::Inactive,
    ensures
        login_verdict(Some(u), true) == Some((ErrorKind::PermissionDenied, MSG_VERIFY_EMAIL_FIRST@)),
        login_verdict(Some(u), true) != login_verdict(None, true),
{
}

} // verus!
