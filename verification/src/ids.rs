//! Identifier generation: random Crockford-base32 drop identifiers and
//! UUID claim identifiers.

use vstd::prelude::*;

verus! {

/// The Crockford base32 encoding of a byte sequence (unpadded). Pure;
/// defined by the `base32` crate.
pub uninterp spec fn crockford_of(data: Seq<u8>) -> Seq<char>;

/// Relies on `rand::random`: five bytes drawn from the thread-local
/// generator. Nothing is promised of their values.
#[verifier::external_body]
fn random_five_bytes() -> (r: Vec<u8>)
    ensures
        r@.len() == 5,
{
    rand::random::<[u8; 5]>().to_vec()
}

/// Relies on `base32::encode` with the Crockford alphabet: a pure encoding
/// of the input bytes; five input bytes yield exactly eight characters (40
/// bits at 5 bits per character, no padding).
#[verifier::external_body]
fn crockford_encode(data: &[u8]) -> (r: String)
    ensures
        r@ == crockford_of(data@),
        data@.len() == 5 ==> r@.len() == 8,
{
    base32::encode(base32::Alphabet::Crockford, data)
}

/// Relies on `uuid::Uuid::new_v4` and its `Display` form: a random
/// version-4 UUID rendered as the 36-character hyphenated string. Nothing
/// is promised of its value.
#[verifier::external_body]
fn uuid_v4_string() -> (r: String)
    ensures
        r@.len() == 36,
{
    uuid::Uuid::new_v4().to_string()
}

/// Generates a fresh drop identifier: `DROP_` followed by the Crockford
/// encoding of five random bytes.
pub fn generate_drop_id() -> (r: String)
    ensures
        r@.len() == 13,
        exists|b: Seq<u8>| b.len() == 5 && r@ == "DROP_"@ + crockford_of(b),
{
    let bytes = random_five_bytes();
    let encoded = crockford_encode(bytes.as_slice());
    let mut s: String = "DROP_".to_owned();
    proof {
        reveal_strlit("DROP_");
    }
    s.append(encoded.as_str());
    proof {
        assert(s@ == "DROP_"@ + crockford_of(bytes@));
    }
    s
}

/// Generates a fresh claim identifier: a hyphenated version-4 UUID, which
/// doubles as the bearer download token.
pub fn new_claim_id() -> (r: String)
    ensures
        r@.len() == 36,
{
    uuid_v4_string()
}

} // verus!
