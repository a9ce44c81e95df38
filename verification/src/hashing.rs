//! Password hashing and checking, done by the `bcrypt` crate.
//!
//! A hash embeds its own random salt, so hashing is not a function of the
//! password alone; what is promised instead is that the produced hash
//! matches the password it was made from, and that checking a password
//! against a hash is a pure function of the two strings.

use vstd::prelude::*;

verus! {

/// Whether `bcrypt::verify(password, hash)` accepts the pair: a pure
/// function of the two strings, since the salt and cost are read back out
/// of the hash itself.
pub uninterp spec fn bcrypt_matches(password: Seq<char>, hash: Seq<char>) -> bool;

/// Relies on `bcrypt::hash` with the crate's default cost: the salt is
/// random, so nothing is said of the hash string itself, only that
/// `bcrypt::verify` accepts the password it was made from.
#[verifier::external_body]
pub(crate) fn hash_password(password: &str) -> (r: Option<String>)
    ensures
        (match r {
            Some(h) => bcrypt_matches(password@, h@),
            None => true,
        }),
{
    bcrypt::hash(password, bcrypt::DEFAULT_COST).ok()
}

/// Relies on `bcrypt::verify`: recomputes the hash from the password and
/// the salt and cost held in `hash`, and compares. Fails only when `hash`
/// is not a well-formed bcrypt string.
#[verifier::external_body]
pub(crate) fn check_password(password: &str, hash: &str) -> (r: Option<bool>)
    ensures
        (match r {
            Some(b) => b == bcrypt_matches(password@, hash@),
            None => true,
        }),
{
    bcrypt::verify(password, hash).ok()
}

} // verus!
