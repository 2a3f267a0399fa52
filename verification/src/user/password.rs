use crate::common::response::{Failure, FailureView};
use vstd::prelude::*;

verus! {

/// `bcrypt::BcryptError`: why a password was not hashed or a credential
/// not checked. Nothing is read of it.
#[verifier::external_type_specification]
#[verifier::external_body]
pub struct ExPasswordError(bcrypt::BcryptError);

/// What `bcrypt::verify` says of a password and a stored credential:
/// whether they match, or nothing where it cannot tell.
pub uninterp spec fn password_verdict(password: Seq<char>, credential: Seq<char>) -> Option<bool>;

/// What the check of a password is worth.
pub open spec fn password_check(verdict: Option<bool>) -> Result<(), FailureView> {
    match verdict {
        Some(matches) => if matches {
            Ok(())
        } else {
            Err(FailureView::WrongPassword)
        },
        None => Err(FailureView::PasswordCheckFailed),
    }
}

/// Makes the credential under which a password is stored: one that the
/// password matches. The credential holds a random salt, so two calls on
/// one password differ.
pub fn hash_password(password: &str) -> (r: Result<String, Failure>)
    ensures
        r matches Ok(credential) ==> password_verdict(password@, credential@) == Some(true),
        r matches Err(f) ==> f@ == FailureView::HashingFailed,
{
    hashed(salted_hash(password))
}

/// Takes what the hashing of a password gave.
pub fn hashed(result: Result<String, bcrypt::BcryptError>) -> (r: Result<String, Failure>)
    ensures
        match result {
            Ok(credential) => r matches Ok(given) && given@ == credential@,
            Err(_) => r matches Err(f) && f@ == FailureView::HashingFailed,
        },
{
    match result {
        Ok(credential) => Ok(credential),
        Err(_) => Err(Failure::HashingFailed),
    }
}

/// Holds a password against a stored credential.
pub fn check_password(password: &str, credential: &str) -> (r: Result<(), Failure>)
    ensures
        match password_check(password_verdict(password@, credential@)) {
            Ok(_) => r is Ok,
            Err(failure) => r matches Err(f) && f@ == failure,
        },
{
    match matches_hash(password, credential) {
        Ok(true) => Ok(()),
        Ok(false) => Err(Failure::WrongPassword),
        Err(_) => Err(Failure::PasswordCheckFailed),
    }
}

/// Calls `bcrypt::hash` at the default cost. It draws a salt at random, so
/// the credential is not a function of the password; but `bcrypt::verify`
/// takes the password for it: it hashes the password again under the cost
/// and the salt that the credential names and finds the same hash.
#[verifier::external_body]
fn salted_hash(password: &str) -> (r: Result<String, bcrypt::BcryptError>)
    ensures
        r matches Ok(credential) ==> password_verdict(password@, credential@) == Some(true),
{
    bcrypt::hash(password, bcrypt::DEFAULT_COST)
}

/// Calls `bcrypt::verify`. It hashes the password under the cost and the
/// salt that the credential names and compares, so that what it returns
/// depends on the two texts alone.
#[verifier::external_body]
fn matches_hash(password: &str, credential: &str) -> (r: Result<bool, bcrypt::BcryptError>)
    ensures
        match r {
            Ok(matches) => password_verdict(password@, credential@) == Some(matches),
            Err(_) => password_verdict(password@, credential@) is None,
        },
{
    bcrypt::verify(password, credential)
}

} // verus!
