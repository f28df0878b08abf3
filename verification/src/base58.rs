//! Base58 rendering of addresses, as used by the container-parameter wire
//! format. The encoding itself is done by the `bs58` crate; this module only
//! states what that crate computes.

use vstd::prelude::*;

verus! {

/// The base58 rendering of a byte string, with the default (Bitcoin)
/// alphabet. Named, not written out: the conversion is the `bs58` crate's
/// work and depends on its input alone.
pub uninterp spec fn base58_of(b: Seq<u8>) -> Seq<u8>;

/// Whether a byte belongs to the Bitcoin base58 alphabet
/// `123456789A-HJ-NP-Za-km-z`. In particular neither `,` nor `=`, the
/// separators of the container-parameter format, belong to it.
pub open spec fn is_base58_byte(b: u8) -> bool {
    ||| (49u8 <= b && b <= 57u8)
    ||| (65u8 <= b && b <= 90u8 && b != 73u8 && b != 79u8)
    ||| (97u8 <= b && b <= 122u8 && b != 108u8)
}

/// Relies on `bs58::encode` with its default alphabet: the result is the
/// base58 rendering of the input, over the alphabet above, and depends on
/// the input alone. The length bound is the one bs58 sizes its own output
/// buffer by (`max_encoded_len`): 1.5 times the input length, rounded up.
#[verifier::external_body]
pub fn base58_encode(b: &Vec<u8>) -> (r: Vec<u8>)
    ensures
        r@ == base58_of(b@),
        forall|i: int| 0 <= i < r@.len() ==> is_base58_byte(r@[i]),
        r@.len() <= b@.len() + (b@.len() + 1) / 2,
{
    bs58::encode(b.as_slice()).into_vec()
}

/// Relies on `bs58::decode` with its default alphabet: decoding succeeds
/// exactly on well-formed base58 text and returns the unique byte string
/// that renders to the input.
#[verifier::external_body]
pub fn base58_decode(s: &Vec<u8>) -> (r: Option<Vec<u8>>)
    ensures
        r matches Some(v) ==> s@ == base58_of(v@),
        r is None ==> forall|b: Seq<u8>| s@ != base58_of(b),
        r matches Some(v) ==> forall|b: Seq<u8>| s@ == base58_of(b) ==> v@ == b,
{
    match bs58::decode(s.as_slice()).into_vec() {
        Ok(v) => Some(v),
        Err(_) => None,
    }
}

} // verus!
