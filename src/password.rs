//! Salted, deliberately slow password hashing and verification, done by the
//! bcrypt crate.

use vstd::prelude::*;
use crate::errors::InternalError;

verus! {

#[verifier::external_type_specification]
#[verifier::external_body]
pub struct ExBcryptError(bcrypt::BcryptError);

/// What `bcrypt::verify` reports for a candidate password against a stored
/// hash: `Some(m)` where the hash can be read (`m` says whether the
/// password matches), `None` where it cannot.
pub uninterp spec fn bcrypt_verdict(password: Seq<char>, hash: Seq<char>) -> Option<bool>;

/// Relies on `bcrypt::hash` at `bcrypt::DEFAULT_COST`: on success the result
/// is a 60-character `$2b$` hash string, with a fresh random salt, that
/// `bcrypt::verify` accepts for the same password (it reads the cost and
/// salt back and recomputes the same digest). It fails only when the
/// random source does.
#[verifier::external_body]
fn bcrypt_hash(password: &str) -> (r: Result<String, bcrypt::BcryptError>)
    ensures
        r matches Ok(h) ==> h@.len() == 60 && h@[0] == '$' && bcrypt_verdict(password@, h@)
            == Some(true),
{
    bcrypt::hash(password, bcrypt::DEFAULT_COST)
}

/// Relies on `bcrypt::verify`: it recomputes the digest of the candidate
/// with the cost and salt read from the hash and compares in constant time.
/// It fails on a hash that is not 60 ASCII bytes in the bcrypt format.
#[verifier::external_body]
fn bcrypt_verify(password: &str, hash: &str) -> (r: Result<bool, bcrypt::BcryptError>)
    ensures
        match bcrypt_verdict(password@, hash@) {
            Some(m) => r == Ok::<bool, bcrypt::BcryptError>(m),
            None => r is Err,
        },
{
    bcrypt::verify(password, hash)
}

/// `hash` is a stored form of `password`: a 60-character string opening with
/// `$` that the verifier accepts for `password`.
pub open spec fn is_hash_of(password: Seq<char>, hash: Seq<char>) -> bool {
    &&& hash.len() == 60
    &&& hash[0] == '$'
    &&& bcrypt_verdict(password, hash) == Some(true)
}

/// What checking `candidate` against `stored_hash` gives.
pub open spec fn verify_outcome(candidate: Seq<char>, stored_hash: Seq<char>) -> Result<
    bool,
    InternalError,
> {
    match bcrypt_verdict(candidate, stored_hash) {
        Some(m) => Ok(m),
        None => Err(InternalError::VerificationFailure),
    }
}

/// Hashes `password` with a fresh salt. The plaintext is never returned.
pub fn hash_password(password: &str) -> (r: Result<String, InternalError>)
    ensures
        r matches Ok(h) ==> is_hash_of(password@, h@),
        r is Err ==> r == Err::<String, InternalError>(InternalError::HashingFailure),
{
    match bcrypt_hash(password) {
        Ok(h) => Ok(h),
        Err(_) => Err(InternalError::HashingFailure),
    }
}

/// Checks `candidate` against `stored_hash`: `Ok(false)` for a wrong
/// password, an error only for a hash that cannot be read.
pub fn verify_password(candidate: &str, stored_hash: &str) -> (r: Result<bool, InternalError>)
    ensures
        r == verify_outcome(candidate@, stored_hash@),
{
    match bcrypt_verify(candidate, stored_hash) {
        Ok(m) => Ok(m),
        Err(_) => Err(InternalError::VerificationFailure),
    }
}

/// A hash made of a password verifies against that same password.
pub proof fn law_hash_then_verify(password: Seq<char>, hash: Seq<char>)
    requires
        is_hash_of(password, hash),
    ensures
        verify_outcome(password, hash) == Ok::<bool, InternalError>(true),
{
}

} // verus!
