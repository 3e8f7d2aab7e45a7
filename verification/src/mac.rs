//! The keyed signature over a token's first two segments.

use crate::base64url::is_symbols;
use vstd::prelude::*;

verus! {

/// The HMAC-SHA256 tag of `message` under the key `secret`, as unpadded
/// URL-safe base64 text.
pub uninterp spec fn hs256_tag(message: Seq<u8>, secret: Seq<u8>) -> Seq<char>;

/// The longest message and the longest key, in bytes, that can be signed:
/// the hash behind the signature counts its input in bits in 64 bits, and
/// this stays clear of that.
pub const LONGEST_INPUT: u64 = 0x1000_0000_0000_0000;

/// Whether `message` can be signed under `secret`: neither is longer than
/// the hash can take.
pub open spec fn signable(message: Seq<u8>, secret: Seq<u8>) -> bool {
    message.len() <= LONGEST_INPUT && secret.len() <= LONGEST_INPUT
}

#[verifier::external_type_specification]
#[verifier::external_body]
pub struct ExSigningError(jsonwebtoken::errors::Error);

/// `jsonwebtoken::crypto::sign` with a key made by
/// `EncodingKey::from_secret`, for HS256. With this algorithm the call
/// always succeeds; its result is the tag of `message` under `secret`,
/// written in the base64 alphabet. The hash panics on input of 2^61 bytes
/// or more, which `signable` leaves out.
#[verifier::external_body]
pub(crate) fn sign(message: &[u8], secret: &[u8]) -> (r: Result<
    String,
    jsonwebtoken::errors::Error,
>)
    requires
        signable(message@, secret@),
    ensures
        r is Ok,
        r->Ok_0@ == hs256_tag(message@, secret@),
        is_symbols(r->Ok_0@),
{
    jsonwebtoken::crypto::sign(
        message,
        &jsonwebtoken::EncodingKey::from_secret(secret),
        jsonwebtoken::Algorithm::HS256,
    )
}

/// `jsonwebtoken::crypto::verify` with a key made by
/// `DecodingKey::from_secret`, for HS256. The call signs `message` again
/// and compares the two texts in constant time: it always succeeds, and says
/// whether `signature` is the tag of `message` under `secret`. It signs, so
/// it takes what `sign` takes.
#[verifier::external_body]
pub(crate) fn verify(signature: &str, message: &[u8], secret: &[u8]) -> (r: Result<
    bool,
    jsonwebtoken::errors::Error,
>)
    requires
        signable(message@, secret@),
    ensures
        r is Ok,
        r->Ok_0 == (signature@ == hs256_tag(message@, secret@)),
{
    jsonwebtoken::crypto::verify(
        signature,
        message,
        &jsonwebtoken::DecodingKey::from_secret(secret),
        jsonwebtoken::Algorithm::HS256,
    )
}

} // verus!
