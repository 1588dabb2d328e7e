//! One-way password hashing with a fresh random salt per hash.

use vstd::prelude::*;
use argon2::password_hash::{PasswordHasher, PasswordVerifier};

verus! {

#[verifier::external_type_specification]
#[verifier::external_body]
pub struct ExHashError(argon2::password_hash::Error);

/// Passwords of at most this many characters fit Argon2's length limit
/// (`u32::MAX` bytes) whatever their encoding.
pub const MAX_PASSWORD_CHARS: usize = 1073741823;

/// Whether Argon2 (default parameters) accepts `password` against the PHC
/// string `phc`.
pub uninterp spec fn argon2_accepts(password: Seq<char>, phc: Seq<char>) -> bool;

/// Relies on argon2's `PasswordHasher::hash_password` with a salt drawn from
/// `OsRng`: the salt and parameters are embedded in the PHC string, so the
/// result verifies against the same password (the usage shown at the top of
/// argon2's crate documentation: hash, parse, `verify_password(..).is_ok()`).
/// The salt is random: nothing more is promised of the text. With default
/// parameters and a generated salt it fails only on a password longer than
/// `u32::MAX` bytes (`verify_inputs`, `PwdTooLong`).
#[verifier::external_body]
pub fn hash_password(password: &str) -> (r: Result<String, argon2::password_hash::Error>)
    ensures
        r matches Ok(h) ==> argon2_accepts(password@, h@),
        password@.len() <= MAX_PASSWORD_CHARS ==> r is Ok,
{
    let salt = argon2::password_hash::SaltString::generate(
        &mut argon2::password_hash::rand_core::OsRng,
    );
    let hashed = argon2::Argon2::default().hash_password(password.as_bytes(), &salt)?;
    Ok(hashed.to_string())
}

/// Relies on `PasswordHash::new` and argon2's `PasswordVerifier::verify_password`
/// (a constant-time comparison of the derived key): whether it succeeds
/// depends on the password and the PHC string alone.
#[verifier::external_body]
pub fn verify_password(password: &str, hash: &str) -> (r: Result<(), argon2::password_hash::Error>)
    ensures
        r is Ok <==> argon2_accepts(password@, hash@),
{
    let parsed = argon2::password_hash::PasswordHash::new(hash)?;
    argon2::Argon2::default().verify_password(password.as_bytes(), &parsed)
}

} // verus!
