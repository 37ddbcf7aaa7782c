//! Checksums: streaming SHA-256 behind trusted wrappers, and the hex
//! spelling of a digest.
//!
//! The digest itself is named, not restated: [`sha256_of`] stands for
//! whatever SHA-256 maps the given bytes to, and every contract that
//! mentions a checksum speaks through that name. The hex spelling, by
//! contrast, is small enough to state exactly.

use vstd::prelude::*;

verus! {

/// The SHA-256 digest of a byte sequence: 32 bytes, a function of the
/// input alone. What those bytes are is left to the hasher.
pub uninterp spec fn sha256_of(bytes: Seq<u8>) -> Seq<u8>;

/// The bytes fed so far into a streaming hasher.
pub uninterp spec fn hashed_bytes(h: sha2::Sha256) -> Seq<u8>;

#[verifier::external_type_specification]
#[verifier::external_body]
pub struct ExSha256(sha2::Sha256);

/// The lowercase hex digit for a value below 16.
pub open spec fn hex_digit(n: u8) -> char
    recommends
        n < 16,
{
    if n < 10 {
        (n + 48) as char
    } else {
        (n + 87) as char
    }
}

/// The lowercase hex spelling of a byte sequence: two digits per byte,
/// high nibble first.
pub open spec fn hex_of(bytes: Seq<u8>) -> Seq<char> {
    Seq::new(
        bytes.len() * 2,
        |i: int|
            if i % 2 == 0 {
                hex_digit(bytes[i / 2] / 16)
            } else {
                hex_digit(bytes[i / 2] % 16)
            },
    )
}

/// Relies on `sha2::Sha256::new` (via `digest::Digest`): a hasher that
/// has seen no input yet.
#[verifier::external_body]
pub(crate) fn sha256_new() -> (h: sha2::Sha256)
    ensures
        hashed_bytes(h) == Seq::<u8>::empty(),
{
    <sha2::Sha256 as sha2::Digest>::new()
}

/// Relies on `sha2::Sha256::update` (via `digest::Digest`): feeding
/// more bytes appends them to the hashed input.
#[verifier::external_body]
pub(crate) fn sha256_update(h: &mut sha2::Sha256, data: &Vec<u8>)
    ensures
        hashed_bytes(*final(h)) == hashed_bytes(*old(h)) + data@,
{
    <sha2::Sha256 as sha2::Digest>::update(h, data.as_slice())
}

/// Relies on `sha2::Sha256::finalize` (via `digest::Digest`): the
/// 32-byte SHA-256 digest of everything fed in.
#[verifier::external_body]
pub(crate) fn sha256_finalize(h: sha2::Sha256) -> (d: Vec<u8>)
    ensures
        d@ == sha256_of(hashed_bytes(h)),
        d@.len() == 32,
{
    <sha2::Sha256 as sha2::Digest>::finalize(h).to_vec()
}

/// Relies on `hex::encode`: the lowercase hex spelling, two digits per
/// byte, high nibble first.
#[verifier::external_body]
pub(crate) fn hex_encode(data: &Vec<u8>) -> (r: String)
    ensures
        r@ == hex_of(data@),
{
    hex::encode(data.as_slice())
}

/// The lowercase hex SHA-256 checksum of a byte buffer, as carried in
/// transfer requests and verified on receipt.
pub fn checksum_of_bytes(data: &Vec<u8>) -> (r: String)
    ensures
        r@ == hex_of(sha256_of(data@)),
{
    let mut h = sha256_new();
    sha256_update(&mut h, data);
    proof {
        assert(Seq::<u8>::empty() + data@ =~= data@);
    }
    let digest = sha256_finalize(h);
    hex_encode(&digest)
}

/// Whether a finished receive counts as verified: with no advertised
/// checksum there is nothing to check; otherwise the computed and the
/// advertised spellings must agree.
pub open spec fn spec_verified(calculated: Seq<char>, expected: Option<String>) -> bool {
    match expected {
        None => true,
        Some(e) => calculated == e@,
    }
}

/// Compare the computed checksum against the advertised one, if any.
pub fn decide_verified(calculated: &String, expected: &Option<String>) -> (r: bool)
    ensures
        r == spec_verified(calculated@, *expected),
{
    match expected {
        None => true,
        Some(e) => *calculated == *e,
    }
}

} // verus!
