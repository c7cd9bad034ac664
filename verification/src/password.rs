//! One-way salted password hashing, behind two trusted wrappers around the
//! bcrypt crate. The salt is drawn fresh for every hash, so nothing is
//! promised of the hash text itself; what is promised holds of every
//! outcome.

use vstd::prelude::*;

verus! {

/// Whether `password` matches the salted hash `hash`. bcrypt stores salt and
/// cost inside the hash text, so this is a function of the two arguments
/// alone.
pub uninterp spec fn bcrypt_matches(password: Seq<char>, hash: Seq<char>) -> bool;

/// Whether `hash` is well-formed bcrypt output, that is, text that
/// verification accepts as a hash. Every hash this crate produces satisfies
/// it; the contracts below need the predicate to say so.
pub uninterp spec fn bcrypt_parseable(hash: Seq<char>) -> bool;

/// Relies on `bcrypt::hash` at the crate's default cost: the result, when
/// hashing succeeds, is well-formed bcrypt output that verifies against the
/// hashed password. Hashing fails only on an internal failure (the salt is
/// drawn from the operating system), never because of the password's value.
#[verifier::external_body]
pub(crate) fn bcrypt_hash_default(password: &str) -> (r: Option<String>)
    ensures
        (match r {
            Some(h) => bcrypt_matches(password@, h@) && bcrypt_parseable(h@),
            None => true,
        }),
{
    bcrypt::hash(password.as_bytes(), bcrypt::DEFAULT_COST).ok()
}

/// Relies on `bcrypt::verify`: whether the password matches the hash, a
/// function of the two arguments alone. Verification fails exactly on a
/// hash that is not well-formed bcrypt output.
#[verifier::external_body]
pub(crate) fn bcrypt_verify(password: &str, hash: &str) -> (r: Option<bool>)
    ensures
        (match r {
            Some(b) => b == bcrypt_matches(password@, hash@) && bcrypt_parseable(hash@),
            None => !bcrypt_parseable(hash@),
        }),
{
    bcrypt::verify(password.as_bytes(), hash).ok()
}

} // verus!
