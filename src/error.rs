use vstd::prelude::*;

verus! {

/// The externally visible error classes of the authentication service.
#[derive(Clone, Copy, Debug, PartialEq, Eq, Structural)]
pub enum ErrorKind {
    AlreadyExists,
    NotFound,
    Unauthenticated,
    PermissionDenied,
    InvalidArgument,
    Internal,
}

/// An error as the caller sees it: a class and a fixed message.
/// Lower-level error text never reaches this type.
#[derive(Clone, Debug)]
pub struct AuthError {
    pub kind: ErrorKind,
    pub message: String,
}

/// Shown for both an unknown email and a wrong secret, so that accounts cannot be enumerated.
pub const MSG_INVALID_CREDENTIALS: &'static str = "Invalid email or password";

pub const MSG_VERIFY_EMAIL_FIRST: &'static str = "Verify your email first";

pub const MSG_INVALID_OTP: &'static str = "Invalid OTP code";

pub const MSG_USER_EXISTS: &'static str = "User already exists";

pub const MSG_USER_NOT_FOUND: &'static str = "User not found";

pub const MSG_TOKEN_REVOKED: &'static str = "Token already invalidated or blacklisted";

pub const MSG_TOKEN_EXPIRED: &'static str = "Token expired";

pub const MSG_TOKEN_INVALID: &'static str = "Invalid token";

pub const MSG_INVALID_REFRESH_TOKEN: &'static str = "Invalid refresh token";

impl AuthError {
    pub fn new(kind: ErrorKind, message: &str) -> (e: AuthError)
        ensures
            e.kind == kind,
            e.message@ == message@,
    {
        AuthError { kind, message: String::from_str(message) }
    }

    /// The error text, as a status message would carry it.
    pub fn to_string(&self) -> (s: String)
        ensures
            s@ == self.message@,
    {
        self.message.clone()
    }
}

/// A failure of an outside store (connection lost, timeout, protocol error).
/// Kept apart from "not found": callers must never read it as an absent key.
#[derive(Clone, Debug)]
pub struct StoreError {
    pub detail: String,
}

} // verus!
