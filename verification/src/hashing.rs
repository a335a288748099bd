//! Trusted wrappers for the two 256-bit hash functions the protocols use,
//! and the derived payment-hash function.
//!
//! Payment hashes are Blake2b-256 with the fixed `ckb-default-hash`
//! personalization; commitments and adaptor masks are SHA-256.

use sha2::Digest;
use vstd::prelude::*;

verus! {

/// What Blake2b-256 with a given personalization returns for given data.
pub uninterp spec fn blake2b256_of(personal: Seq<u8>, data: Seq<u8>) -> Seq<u8>;

/// What SHA-256 returns for given data.
pub uninterp spec fn sha256_of(data: Seq<u8>) -> Seq<u8>;

/// Relies on blake2b_rs: Blake2b with a 32-byte digest and the given
/// personalization; the result depends on the arguments alone.
/// `Blake2bBuilder::personal` rejects tags longer than 16 bytes.
#[verifier::external_body]
fn blake2b256_personalized(personal: &Vec<u8>, data: &Vec<u8>) -> (r: Vec<u8>)
    requires
        personal@.len() <= 16,
    ensures
        r@ == blake2b256_of(personal@, data@),
        r@.len() == 32,
{
    let mut hasher = blake2b_rs::Blake2bBuilder::new(32)
        .personal(personal.as_slice())
        .build();
    hasher.update(data.as_slice());
    let mut out = [0u8; 32];
    hasher.finalize(&mut out);
    out.to_vec()
}

/// Relies on sha2::Sha256: a 32-byte digest that depends on the data alone.
#[verifier::external_body]
pub fn sha256(data: &Vec<u8>) -> (r: Vec<u8>)
    ensures
        r@ == sha256_of(data@),
        r@.len() == 32,
{
    sha2::Sha256::digest(data.as_slice()).to_vec()
}

/// The 16-byte personalization tag that turns Blake2b-256 into the
/// payment-hash function: the ASCII bytes of `ckb-default-hash`.
pub open spec fn ckb_personalization() -> Seq<u8> {
    seq![
        0x63u8, 0x6bu8, 0x62u8, 0x2du8, 0x64u8, 0x65u8, 0x66u8, 0x61u8,
        0x75u8, 0x6cu8, 0x74u8, 0x2du8, 0x68u8, 0x61u8, 0x73u8, 0x68u8,
    ]
}

/// The payment-hash function: Blake2b-256 under the fixed personalization.
pub open spec fn ckb_hash_of(data: Seq<u8>) -> Seq<u8> {
    blake2b256_of(ckb_personalization(), data)
}

/// Computes the 32-byte payment hash of `data`.
pub fn ckb_hash32(data: &Vec<u8>) -> (r: Vec<u8>)
    ensures
        r@ == ckb_hash_of(data@),
        r@.len() == 32,
{
    let mut personal: Vec<u8> = Vec::new();
    personal.push(0x63u8);
    personal.push(0x6bu8);
    personal.push(0x62u8);
    personal.push(0x2du8);
    personal.push(0x64u8);
    personal.push(0x65u8);
    personal.push(0x66u8);
    personal.push(0x61u8);
    personal.push(0x75u8);
    personal.push(0x6cu8);
    personal.push(0x74u8);
    personal.push(0x2du8);
    personal.push(0x68u8);
    personal.push(0x61u8);
    personal.push(0x73u8);
    personal.push(0x68u8);
    proof {
        assert(personal@ =~= ckb_personalization());
    }
    blake2b256_personalized(&personal, data)
}

} // verus!
