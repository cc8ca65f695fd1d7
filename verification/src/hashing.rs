//! Content hashing: SHA-256 digests rendered as lowercase hex, used as the
//! integrity value stored beside every drop's audio blob.

use vstd::prelude::*;

verus! {

/// The SHA-256 digest of a byte sequence. The digest is a pure function of
/// the input bytes; its definition lives in the `sha2` crate.
pub uninterp spec fn sha256_of(data: Seq<u8>) -> Seq<u8>;

/// The lowercase hex rendering of a byte sequence. Pure; defined by the
/// `hex` crate.
pub uninterp spec fn hex_of(data: Seq<u8>) -> Seq<char>;

/// The hex-rendered SHA-256 of a byte sequence — the form stored in
/// `audio_sha256`.
pub open spec fn sha256_hex_of(data: Seq<u8>) -> Seq<char> {
    hex_of(sha256_of(data))
}

/// Relies on `sha2::Sha256::digest`: the SHA-256 digest of the input, a
/// function of the input bytes alone, 32 bytes long.
#[verifier::external_body]
fn sha256_digest(data: &[u8]) -> (r: Vec<u8>)
    ensures
        r@ == sha256_of(data@),
        r@.len() == 32,
{
    <sha2::Sha256 as sha2::Digest>::digest(data).to_vec()
}

/// Relies on `hex::encode`: lowercase hex, two digits per input byte, a
/// function of the input bytes alone.
#[verifier::external_body]
fn hex_encode(data: &[u8]) -> (r: String)
    ensures
        r@ == hex_of(data@),
        r@.len() == 2 * data@.len(),
{
    hex::encode(data)
}

/// Computes the lowercase-hex SHA-256 of `data`: the integrity value a
/// drop stores for its audio bytes.
pub fn compute_sha256(data: &[u8]) -> (r: String)
    ensures
        r@ == sha256_hex_of(data@),
        r@.len() == 64,
{
    let digest = sha256_digest(data);
    hex_encode(digest.as_slice())
}

} // verus!
