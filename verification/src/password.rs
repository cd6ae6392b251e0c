//! Password policy and the two calls into the `bcrypt` crate.

use vstd::prelude::*;
use vstd::string::StrSliceExecFns;

verus! {

/// The fewest characters a password may have.
pub const MIN_PASSWORD_LENGTH: usize = 8;

/// The smallest work factor `bcrypt` accepts.
pub const MIN_COST: u32 = 4;

/// The largest work factor `bcrypt` accepts.
pub const MAX_COST: u32 = 31;

/// The work factor used unless a store is configured otherwise.
pub const DEFAULT_COST: u32 = 12;

/// Whether the policy refuses a password.
pub open spec fn is_weak(password: Seq<char>) -> bool {
    password.len() < MIN_PASSWORD_LENGTH
}

/// Whether the policy refuses a password.
pub fn check_weak(password: &str) -> (r: bool)
    ensures
        r == is_weak(password@),
{
    password.unicode_len() < MIN_PASSWORD_LENGTH
}

/// The error type of the `bcrypt` crate, carried through unopened.
#[verifier::external_type_specification]
#[verifier::external_body]
pub struct ExBcryptError(bcrypt::BcryptError);

/// The answer of `bcrypt::verify` for a password and a hash string:
/// `Some(true)` when the password matches, `Some(false)` when it does not,
/// `None` when `bcrypt` reports an error because the string is not a
/// well-formed hash.
pub uninterp spec fn bcrypt_verify(password: Seq<char>, hash: Seq<char>) -> Option<bool>;

/// Calls `bcrypt::hash`, which salts the password with fresh random bytes
/// and hashes it at the given work factor.
///
/// Nothing is proved here; the contract records what the crate documents.
/// The call fails for a work factor outside `MIN_COST..=MAX_COST` and when
/// the system cannot supply random bytes. A hash that it does return is one
/// that `bcrypt::verify` accepts for the same password. Which hash comes
/// back is not determined by the arguments.
#[verifier::external_body]
pub(crate) fn hash_password(password: &str, cost: u32) -> (r: Result<String, bcrypt::BcryptError>)
    ensures
        r is Ok ==> MIN_COST <= cost <= MAX_COST,
        r matches Ok(h) ==> bcrypt_verify(password@, h@) == Some(true),
{
    bcrypt::hash(password, cost)
}

/// Calls `bcrypt::verify`, which recomputes the hash of the password with
/// the salt and work factor found in `hash` and compares.
///
/// Nothing is proved here; the contract only gives the answer its name.
#[verifier::external_body]
pub(crate) fn verify_password(password: &str, hash: &str) -> (r: Result<bool, bcrypt::BcryptError>)
    ensures
        r is Ok <==> bcrypt_verify(password@, hash@) is Some,
        r matches Ok(b) ==> bcrypt_verify(password@, hash@) == Some(b),
{
    bcrypt::verify(password, hash)
}

/// Hashes a password for storage, with a fresh random salt.
///
/// A hash that comes back is one that the same password verifies against.
/// None comes back for a work factor outside `MIN_COST..=MAX_COST`. For a
/// work factor within it the outcome lies with `bcrypt`, which fails when
/// the system cannot supply random bytes: success cannot be promised, and
/// which hash comes back is not determined by the arguments.
pub fn hash_for_storage(password: &str, cost: u32) -> (r: Option<String>)
    ensures
        r matches Some(h) ==> bcrypt_verify(password@, h@) == Some(true),
        r is Some ==> MIN_COST <= cost <= MAX_COST,
{
    match hash_password(password, cost) {
        Ok(h) => Some(h),
        Err(_) => None,
    }
}

/// Checks a password against a stored hash: `Some(true)` on a match,
/// `Some(false)` on a mismatch, `None` when the stored hash is unreadable.
pub fn check_password(password: &str, hash: &str) -> (r: Option<bool>)
    ensures
        r == bcrypt_verify(password@, hash@),
{
    match verify_password(password, hash) {
        Ok(b) => Some(b),
        Err(_) => None,
    }
}

} // verus!
