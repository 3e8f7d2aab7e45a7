//! User ids: UUIDs, held as 128-bit numbers.

use vstd::prelude::*;

verus! {

/// The UUID that `text` denotes in one of the notations that the `uuid`
/// crate reads, as a 128-bit number; `None` where it denotes none.
pub uninterp spec fn uuid_parsed(text: Seq<char>) -> Option<u128>;

/// The lower-case character for the hexadecimal digit `v`.
pub open spec fn hex_digit(v: int) -> char {
    if v < 10 {
        (v + 48) as u8 as char
    } else {
        (v + 87) as u8 as char
    }
}

/// Sixteen to the power `n`.
pub open spec fn sixteen_to(n: int) -> int
    decreases n,
{
    if n <= 0 {
        1
    } else {
        16 * sixteen_to(n - 1)
    }
}

/// The hexadecimal digit at place `k` of the 32 that write `id`, the most
/// significant at place 0.
pub open spec fn hex_at(id: u128, k: int) -> int {
    (id as int / sixteen_to(31 - k)) % 16
}

/// The number of hyphens before place `i` of the hyphenated notation.
pub open spec fn hyphens_before(i: int) -> int {
    if i < 8 {
        0
    } else if i < 13 {
        1
    } else if i < 18 {
        2
    } else if i < 23 {
        3
    } else {
        4
    }
}

/// The hyphenated lower-case notation of the UUID with the value `id`: 36
/// characters, the 32 hexadecimal digits of `id` in groups of 8, 4, 4, 4
/// and 12 with a hyphen between two groups.
pub open spec fn uuid_hyphenated(id: u128) -> Seq<char> {
    Seq::new(
        36,
        |i: int|
            if i == 8 || i == 13 || i == 18 || i == 23 {
                '-'
            } else {
                hex_digit(hex_at(id, i - hyphens_before(i)))
            },
    )
}

/// Whether `id` is the value of a random UUID: version 4 in the four bits
/// that hold the version, and the two bits of the variant set to one and
/// zero.
pub open spec fn is_random_uuid(id: u128) -> bool {
    &&& (id as int / 0x1000_0000_0000_0000_0000) % 16 == 4
    &&& (id as int / 0x4000_0000_0000_0000) % 4 == 2
}

/// `uuid::Uuid::parse_str`, and `Uuid::as_u128` on what it finds.
#[verifier::external_body]
pub(crate) fn parse(text: &str) -> (r: Option<u128>)
    ensures
        r == uuid_parsed(text@),
{
    match uuid::Uuid::parse_str(text) {
        Ok(id) => Some(id.as_u128()),
        Err(_) => None,
    }
}

/// `uuid::Uuid::from_u128`, then `Uuid::hyphenated` written out as text:
/// the digits of `id` in lower case, with the hyphens.
#[verifier::external_body]
pub(crate) fn hyphenated(id: u128) -> (text: String)
    ensures
        text@ == uuid_hyphenated(id),
{
    uuid::Uuid::from_u128(id).hyphenated().to_string()
}

/// `uuid::Uuid::new_v4`, read with `Uuid::as_u128`: a random id. The call
/// draws 128 random bits and sets those of the version and the variant;
/// nothing else is promised of the value.
#[verifier::external_body]
pub(crate) fn fresh() -> (id: u128)
    ensures
        is_random_uuid(id),
{
    uuid::Uuid::new_v4().as_u128()
}

} // verus!
