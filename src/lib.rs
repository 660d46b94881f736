//! Bearer-credential issuance, validation and revocation, and the one-time-passcode
//! challenge used for email verification and password recovery.

pub mod error;
pub mod token;
pub mod store;
pub mod password;
pub mod otp;
pub mod entity;
pub mod ports;
pub mod dto;
pub mod auth;
pub mod config;
pub mod totp;
