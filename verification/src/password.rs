//! Password hashing with Argon2 (default parameters, PHC string format).

use vstd::prelude::*;

verus! {

/// Why hashing or checking a password failed.
#[derive(Clone, Copy, Debug, PartialEq, Eq, Structural)]
pub enum PasswordError {
    /// Hashing failed (for instance on an invalid salt).
    HashFailed,
    /// The stored hash is not a PHC string.
    InvalidHash,
}

/// The PHC string that Argon2 with default parameters makes of a password
/// and a B64 salt, or `None` when hashing fails.
pub uninterp spec fn spec_argon2_hash(password: Seq<char>, salt: Seq<char>) -> Option<Seq<char>>;

/// Whether a password matches a PHC string under Argon2 with default
/// parameters, or that the string is not a PHC string.
pub uninterp spec fn spec_verify_password(password: Seq<char>, hash: Seq<char>) -> Result<bool, PasswordError>;

/// `argon2::password_hash::SaltString::generate` with the operating system's
/// generator: a random B64 salt. Nothing is claimed of its value.
#[verifier::external_body]
fn generate_salt() -> String {
    argon2::password_hash::SaltString::generate(&mut argon2::password_hash::rand_core::OsRng).as_str().to_string()
}

/// `argon2::PasswordHasher::hash_password` with `Argon2::default()`, the salt
/// read with `SaltString::from_b64`. The hash is named. As `password-hash`
/// documents, verifying the password against the hash it made succeeds.
#[verifier::external_body]
fn hash_with_salt(password: &str, salt: &str) -> (r: Result<String, PasswordError>)
    ensures
        r is Ok ==> spec_argon2_hash(password@, salt@) == Some(r->Ok_0@),
        r is Err ==> r->Err_0 == PasswordError::HashFailed && spec_argon2_hash(password@, salt@) is None,
        r is Ok ==> (spec_verify_password(password@, r->Ok_0@) is Ok && spec_verify_password(password@, r->Ok_0@)->Ok_0),
{
    let salt = match argon2::password_hash::SaltString::from_b64(salt) {
        Ok(s) => s,
        Err(_) => return Err(PasswordError::HashFailed),
    };
    match argon2::PasswordHasher::hash_password(&argon2::Argon2::default(), password.as_bytes(), &salt) {
        Ok(h) => Ok(h.to_string()),
        Err(_) => Err(PasswordError::HashFailed),
    }
}

/// `argon2::PasswordVerifier::verify_password` with `Argon2::default()`, the
/// hash read with `PasswordHash::new`: whether the password matches, or that
/// the hash is not a PHC string. The outcome is named.
#[verifier::external_body]
fn verify_with_hash(password: &str, hash: &str) -> (r: Result<bool, PasswordError>)
    ensures
        r == spec_verify_password(password@, hash@),
{
    let parsed = match argon2::password_hash::PasswordHash::new(hash) {
        Ok(p) => p,
        Err(_) => return Err(PasswordError::InvalidHash),
    };
    Ok(argon2::PasswordVerifier::verify_password(&argon2::Argon2::default(), password.as_bytes(), &parsed).is_ok())
}

/// Hashes a password with a fresh random salt. When hashing succeeds, the
/// password verifies against the hash.
pub fn hash_password(password: &str) -> (r: Result<String, PasswordError>)
    ensures
        r is Ok ==> exists|salt: Seq<char>| spec_argon2_hash(password@, salt) == Some(r->Ok_0@),
        r is Ok ==> spec_verify_password(password@, r->Ok_0@) == Ok::<bool, PasswordError>(true),
        r is Err ==> r->Err_0 == PasswordError::HashFailed,
        r is Err ==> exists|salt: Seq<char>| spec_argon2_hash(password@, salt) is None,
{
    let salt = generate_salt();
    hash_with_salt(password, salt.as_str())
}

/// Whether a password matches a stored hash.
pub fn verify_password(password: &str, hash: &str) -> (r: Result<bool, PasswordError>)
    ensures
        r == spec_verify_password(password@, hash@),
{
    verify_with_hash(password, hash)
}

} // verus!
