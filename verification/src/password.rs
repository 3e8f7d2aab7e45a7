//! Password hashes.

use vstd::prelude::*;

verus! {

/// Whether `password` is the one that the bcrypt hash `hash` was made of;
/// `None` where `hash` is not a bcrypt hash.
pub uninterp spec fn bcrypt_verified(password: Seq<char>, hash: Seq<char>) -> Option<bool>;

/// `bcrypt::verify`: splits `hash` into cost, salt and digest, hashes
/// `password` with that cost and salt, and compares the digests.
#[verifier::external_body]
pub(crate) fn verify(password: &str, hash: &str) -> (r: Option<bool>)
    ensures
        r == bcrypt_verified(password@, hash@),
{
    bcrypt::verify(password, hash).ok()
}

/// `bcrypt::hash` at `bcrypt::DEFAULT_COST`: a hash of `password` with a
/// random salt, or nothing where no salt could be drawn. The text holds the
/// cost, the salt and the digest, which is what `bcrypt::verify` reads and
/// computes again: whatever salt was drawn, the hash verifies for
/// `password`.
#[verifier::external_body]
pub(crate) fn hash(password: &str) -> (r: Option<String>)
    ensures
        r matches Some(h) ==> bcrypt_verified(password@, h@) == Some(true),
{
    bcrypt::hash(password, bcrypt::DEFAULT_COST).ok()
}

} // verus!
