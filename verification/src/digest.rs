//! Discriminators: the 8-byte tags that prefix ledger records and
//! instruction payloads. A tag is the leading 8 bytes of the SHA-256 digest
//! of a fixed preimage, `"global:<name>"` for instructions and
//! `"account:<Name>"` for records.

use vstd::prelude::*;
use sha2::Digest;

verus! {

/// The SHA-256 digest of a byte string. Named, not written out: the hash is
/// the `sha2` crate's work and depends on its input alone.
pub uninterp spec fn sha256_of(b: Seq<u8>) -> Seq<u8>;

/// Relies on `sha2::Sha256` (FIPS 180-4): a 32-byte digest that depends on
/// the input alone.
#[verifier::external_body]
pub fn sha256(data: &Vec<u8>) -> (r: Vec<u8>)
    ensures
        r@ == sha256_of(data@),
        r@.len() == 32,
{
    sha2::Sha256::digest(data.as_slice()).to_vec()
}

/// The preimage prefix for instruction discriminators: `"global:"`.
pub open spec fn global_prefix() -> Seq<u8> {
    seq![103u8, 108u8, 111u8, 98u8, 97u8, 108u8, 58u8]
}

/// The preimage prefix for record discriminators: `"account:"`.
pub open spec fn account_prefix() -> Seq<u8> {
    seq![97u8, 99u8, 99u8, 111u8, 117u8, 110u8, 116u8, 58u8]
}

/// The 8-byte tag identifying the instruction entrypoint `name`.
pub open spec fn ixn_discriminator(name: Seq<u8>) -> Seq<u8> {
    sha256_of(global_prefix() + name).take(8)
}

/// The 8-byte tag identifying the record type `name`.
pub open spec fn account_discriminator(name: Seq<u8>) -> Seq<u8> {
    sha256_of(account_prefix() + name).take(8)
}

fn first_eight(h: Vec<u8>) -> (r: Vec<u8>)
    requires
        h@.len() >= 8,
    ensures
        r@ == h@.take(8),
{
    let mut r: Vec<u8> = Vec::new();
    let mut i: usize = 0;
    while i < 8
        invariant
            i <= 8,
            h@.len() >= 8,
            r@ == h@.take(i as int),
        decreases 8 - i,
    {
        r.push(h[i]);
        assert(r@ =~= h@.take(i + 1));
        i += 1;
    }
    r
}

/// The instruction discriminator for `name`, computed as the leading 8
/// bytes of `sha256("global:" ++ name)`.
pub fn get_ixn_discriminator(name: &Vec<u8>) -> (r: Vec<u8>)
    ensures
        r@ == ixn_discriminator(name@),
        r@.len() == 8,
{
    let mut preimage: Vec<u8> = vec![103u8, 108u8, 111u8, 98u8, 97u8, 108u8, 58u8];
    assert(preimage@ =~= global_prefix());
    let mut i: usize = 0;
    let n = name.len();
    while i < n
        invariant
            i <= n,
            n == name@.len(),
            preimage@ == global_prefix() + name@.take(i as int),
        decreases n - i,
    {
        preimage.push(name[i]);
        assert(preimage@ =~= global_prefix() + name@.take(i + 1));
        i += 1;
    }
    assert(preimage@ =~= global_prefix() + name@);
    let h = sha256(&preimage);
    first_eight(h)
}

/// The record discriminator for `name`, computed as the leading 8 bytes of
/// `sha256("account:" ++ name)`.
pub fn get_account_discriminator(name: &Vec<u8>) -> (r: Vec<u8>)
    ensures
        r@ == account_discriminator(name@),
        r@.len() == 8,
{
    let mut preimage: Vec<u8> = vec![97u8, 99u8, 99u8, 111u8, 117u8, 110u8, 116u8, 58u8];
    assert(preimage@ =~= account_prefix());
    let mut i: usize = 0;
    let n = name.len();
    while i < n
        invariant
            i <= n,
            n == name@.len(),
            preimage@ == account_prefix() + name@.take(i as int),
        decreases n - i,
    {
        preimage.push(name[i]);
        assert(preimage@ =~= account_prefix() + name@.take(i + 1));
        i += 1;
    }
    assert(preimage@ =~= account_prefix() + name@);
    let h = sha256(&preimage);
    first_eight(h)
}

} // verus!
