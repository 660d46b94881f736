use vstd::prelude::*;

verus! {

/// Relies on `uuid::Uuid::new_v4`: a random identifier, rendered in its 36-character
/// hyphenated form.
#[verifier::external_body]
pub(crate) fn new_uuid() -> (r: String)
    ensures
        r@.len() == 36,
{
    uuid::Uuid::new_v4().to_string()
}

/// The lifecycle state of an account. Only `Active` accounts may log in.
#[derive(Clone, Copy, Debug, PartialEq, Eq, Structural)]
pub enum UserStatus {
    Active,
    Inactive,
    Suspended,
    Banned,
}

pub open spec fn status_str(s: UserStatus) -> Seq<char> {
    match s {
        UserStatus::Active => "active"@,
        UserStatus::Inactive => "inactive"@,
        UserStatus::Suspended => "suspended"@,
        UserStatus::Banned => "banned"@,
    }
}

fn str_eq(a: &str, b: &str) -> (r: bool)
    ensures
        r == (a@ == b@),
{
    String::from_str(a) == String::from_str(b)
}

impl UserStatus {
    pub fn from_str(s: &str) -> (r: Option<UserStatus>)
        ensures
            r matches Some(st) ==> status_str(st) == s@,
            r is None ==> forall|st: UserStatus| status_str(st) != s@,
    {
        if str_eq(s, "active") {
            Some(UserStatus::Active)
        } else if str_eq(s, "inactive") {
            Some(UserStatus::Inactive)
        } else if str_eq(s, "suspended") {
            Some(UserStatus::Suspended)
        } else if str_eq(s, "banned") {
            Some(UserStatus::Banned)
        } else {
            None
        }
    }

    pub fn as_str(&self) -> (r: &'static str)
        ensures
            r@ == status_str(*self),
    {
        match self {
            UserStatus::Active => "active",
            UserStatus::Inactive => "inactive",
            UserStatus::Suspended => "suspended",
            UserStatus::Banned => "banned",
        }
    }
}

#[derive(Clone, Copy, Debug, PartialEq, Eq, Structural)]
pub enum UserGender {
    Male,
    Female,
    PreferNotToSay,
}

pub open spec fn gender_str(g: UserGender) -> Seq<char> {
    match g {
        UserGender::Male => "male"@,
        UserGender::Female => "female"@,
        UserGender::PreferNotToSay => "prefer-not-to-say"@,
    }
}

impl UserGender {
    pub fn from_str(s: &str) -> (r: Option<UserGender>)
        ensures
            r matches Some(g) ==> gender_str(g) == s@,
            r is None ==> forall|g: UserGender| gender_str(g) != s@,
    {
        if str_eq(s, "male") {
            Some(UserGender::Male)
        } else if str_eq(s, "female") {
            Some(UserGender::Female)
        } else if str_eq(s, "prefer-not-to-say") {
            Some(UserGender::PreferNotToSay)
        } else {
            None
        }
    }

    pub fn as_str(&self) -> (r: &'static str)
        ensures
            r@ == gender_str(*self),
    {
        match self {
            UserGender::Male => "male",
            UserGender::Female => "female",
            UserGender::PreferNotToSay => "prefer-not-to-say",
        }
    }
}

/// An account as the logic sees it. Timestamps are audit data and stay out of it.
pub struct UserView {
    pub id: Seq<char>,
    pub name: Seq<char>,
    pub email: Seq<char>,
    pub password: Seq<char>,
    pub status: UserStatus,
}

/// An account record; `password` holds the hash form of the secret, never the secret.
/// Times are seconds since the Unix epoch.
#[derive(Clone, Debug)]
pub struct User {
    pub id: String,
    pub name: String,
    pub email: String,
    pub password: String,
    pub status: UserStatus,
    pub created_at: i64,
    pub updated_at: i64,
}

impl View for User {
    type V = UserView;

    open spec fn view(&self) -> UserView {
        UserView {
            id: self.id@,
            name: self.name@,
            email: self.email@,
            password: self.password@,
            status: self.status,
        }
    }
}

impl User {
    /// A new account record with a fresh random identifier, created now.
    pub fn new(name: String, email: String, password: String, status: UserStatus) -> (u: User)
        ensures
            u.name == name,
            u.email == email,
            u.password == password,
            u.status == status,
            u.id@.len() == 36,
            u.created_at == u.updated_at,
    {
        let now = crate::token::now_unix();
        User { id: new_uuid(), name, email, password, status, created_at: now, updated_at: now }
    }

    /// A copy of the record.
    pub fn duplicate(&self) -> (u: User)
        ensures
            u@ == self@,
    {
        self.with_status(self.status)
    }

    /// The same account in another state.
    pub fn with_status(&self, status: UserStatus) -> (u: User)
        ensures
            u@ == (UserView { status, ..self@ }),
    {
        User {
            id: self.id.clone(),
            name: self.name.clone(),
            email: self.email.clone(),
            password: self.password.clone(),
            status,
            created_at: self.created_at,
            updated_at: self.updated_at,
        }
    }

    /// The same account with another stored hash form.
    pub fn with_password(&self, password: &str) -> (u: User)
        ensures
            u@ == (UserView { password: password@, ..self@ }),
    {
        User {
            id: self.id.clone(),
            name: self.name.clone(),
            email: self.email.clone(),
            password: String::from_str(password),
            status: self.status,
            created_at: self.created_at,
            updated_at: self.updated_at,
        }
    }
}

/// A login record as the logic sees it.
pub struct SessionView {
    pub user_id: Seq<char>,
    pub login_ip: Seq<char>,
    pub login_device: Seq<char>,
    pub login_location: Seq<char>,
}

/// An append-only record of a successful login: network origin, device and coarse
/// location (as JSON text).
#[derive(Clone, Debug)]
pub struct UserSessions {
    pub id: String,
    pub user_id: String,
    pub login_ip: String,
    pub login_device: String,
    pub login_location: String,
    pub created_at: i64,
    pub updated_at: i64,
    pub deleted_at: Option<i64>,
}

impl View for UserSessions {
    type V = SessionView;

    open spec fn view(&self) -> SessionView {
        SessionView {
            user_id: self.user_id@,
            login_ip: self.login_ip@,
            login_device: self.login_device@,
            login_location: self.login_location@,
        }
    }
}

impl UserSessions {
    pub fn new(user_id: String, login_ip: String, login_device: String, login_location: String) -> (s: UserSessions)
        ensures
            s.user_id == user_id,
            s.login_ip == login_ip,
            s.login_device == login_device,
            s.login_location == login_location,
            s.id@.len() == 36,
            s.deleted_at is None,
    {
        let now = crate::token::now_unix();
        UserSessions {
            id: new_uuid(),
            user_id,
            login_ip,
            login_device,
            login_location,
            created_at: now,
            updated_at: now,
            deleted_at: None,
        }
    }
}

/// Personal details of an account. `birth_date` counts days since 1970-01-01.
#[derive(Clone, Debug)]
pub struct UserInfo {
    pub id: String,
    pub user_id: String,
    pub first_name: String,
    pub last_name: String,
    pub gender: UserGender,
    pub birth_date: i32,
    pub created_at: i64,
    pub updated_at: i64,
    pub deleted_at: Option<i64>,
}

impl UserInfo {
    pub fn new(user_id: String, first_name: String, last_name: String, gender: UserGender, birth_date: i32) -> (r: UserInfo)
        ensures
            r.user_id == user_id,
            r.first_name == first_name,
            r.last_name == last_name,
            r.gender == gender,
            r.birth_date == birth_date,
            r.id@.len() == 36,
            r.created_at == r.updated_at,
            r.deleted_at is None,
    {
        let now = crate::token::now_unix();
        UserInfo {
            id: new_uuid(),
            user_id,
            first_name,
            last_name,
            gender,
            birth_date,
            created_at: now,
            updated_at: now,
            deleted_at: None,
        }
    }
}

/// Security state of an account. Times are seconds since the Unix epoch.
#[derive(Clone, Debug)]
pub struct UserSecurity {
    pub id: String,
    pub user_id: String,
    pub mfa_secret_key: Option<String>,
    pub email_verified_at: Option<i64>,
    pub last_password_change: Option<i64>,
    pub account_locked_until: Option<i64>,
    pub created_at: i64,
    pub updated_at: i64,
    pub deleted_at: Option<i64>,
}

impl UserSecurity {
    pub fn new(
        user_id: String,
        mfa_secret_key: Option<String>,
        email_verified_at: Option<i64>,
        last_password_change: Option<i64>,
        account_locked_until: Option<i64>,
    ) -> (r: UserSecurity)
        ensures
            r.user_id == user_id,
            r.mfa_secret_key == mfa_secret_key,
            r.email_verified_at == email_verified_at,
            r.last_password_change == last_password_change,
            r.account_locked_until == account_locked_until,
            r.id@.len() == 36,
            r.created_at == r.updated_at,
            r.deleted_at is None,
    {
        let now = crate::token::now_unix();
        UserSecurity {
            id: new_uuid(),
            user_id,
            mfa_secret_key,
            email_verified_at,
            last_password_change,
            account_locked_until,
            created_at: now,
            updated_at: now,
            deleted_at: None,
        }
    }
}

} // verus!
