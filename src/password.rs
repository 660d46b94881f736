use vstd::prelude::*;

verus! {

#[verifier::external_type_specification]
#[verifier::external_body]
pub struct ExBcryptError(bcrypt::BcryptError);

/// `bcrypt::verify` accepts `plain` against the stored hash form `hashed`
/// (returns `Ok(true)`).
pub uninterp spec fn password_matches(plain: Seq<char>, hashed: Seq<char>) -> bool;

/// Relies on `bcrypt::hash`: a salted hash with a random salt, which `bcrypt::verify`
/// accepts for the same password. Fails when the cost is out of range or the system
/// randomness is unavailable.
#[verifier::external_body]
fn bcrypt_hash(password: &str, cost: u32) -> (r: Result<String, bcrypt::BcryptError>)
    ensures
        r matches Ok(h) ==> password_matches(password@, h@),
{
    bcrypt::hash(password, cost)
}

/// Relies on `bcrypt::verify`: `Ok(true)` exactly when the password matches the hash;
/// a malformed hash is an error.
#[verifier::external_body]
fn bcrypt_verify(password: &str, hashed: &str) -> (r: Result<bool, bcrypt::BcryptError>)
    ensures
        (r == Ok::<bool, bcrypt::BcryptError>(true)) <==> password_matches(password@, hashed@),
{
    bcrypt::verify(password, hashed)
}

/// Hashes a secret with a salted, deliberately slow one-way hash.
/// The error carries no detail that could leak the secret.
pub fn hash_password(password: &str, cost: u32) -> (r: Result<String, ()>)
    ensures
        r matches Ok(h) ==> password_matches(password@, h@),
{
    match bcrypt_hash(password, cost) {
        Ok(h) => Ok(h),
        Err(_) => Err(()),
    }
}

/// Checks a secret against a stored hash form; a malformed hash form reads as `false`.
pub fn verify_password(plain: &str, hashed: &str) -> (r: bool)
    ensures
        r == password_matches(plain@, hashed@),
{
    match bcrypt_verify(plain, hashed) {
        Ok(b) => b,
        Err(_) => false,
    }
}

} // verus!
