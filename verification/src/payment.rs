//! Preimages and payment hashes for hold invoices.
//!
//! A preimage is a 32-byte secret; its payment hash is the Blake2b-256
//! digest under the fixed personalization (see [`crate::hashing`]).
//! The hash is freely shareable; the preimage settles the invoice.

use rand::Rng;
use vstd::prelude::*;
use vstd::string::StringExecFns;

use crate::bytes::clone_bytes;
use crate::encoding::{decode_hex_bytes, hex_encode, spec_hex_decode, spec_hex_encode, spec_strip_0x, hex_valid};
use crate::errors::HexError;
use crate::hashing::{ckb_hash32, ckb_hash_of};

verus! {

/// A 32-byte secret whose hash locks a hold invoice.
#[derive(Debug)]
pub struct Preimage {
    bytes: Vec<u8>,
}

/// The 32-byte payment hash of a preimage.
#[derive(Debug)]
pub struct PaymentHash {
    bytes: Vec<u8>,
}

impl View for Preimage {
    type V = Seq<u8>;

    closed spec fn view(&self) -> Seq<u8> {
        self.bytes@
    }
}

impl View for PaymentHash {
    type V = Seq<u8>;

    closed spec fn view(&self) -> Seq<u8> {
        self.bytes@
    }
}

/// Relies on rand: fills a fresh buffer of `n` bytes from the
/// thread-local CSPRNG. Nothing is promised of the contents.
#[verifier::external_body]
pub fn random_bytes(n: usize) -> (r: Vec<u8>)
    ensures
        r@.len() == n,
{
    let mut buf = vec![0u8; n];
    rand::rng().fill_bytes(&mut buf);
    buf
}

impl Preimage {
    /// Draws a fresh 32-byte preimage from the CSPRNG.
    pub fn random() -> (r: Self)
        ensures
            r@.len() == 32,
    {
        Preimage { bytes: random_bytes(32) }
    }

    /// Wraps raw bytes as a preimage.
    pub fn from_bytes(bytes: Vec<u8>) -> (r: Self)
        ensures
            r@ == bytes@,
    {
        Preimage { bytes }
    }

    /// Parses a hex string, with or without a `0x` prefix, into a
    /// 32-byte preimage.
    pub fn from_hex(s: &str) -> (r: Result<Self, HexError>)
        ensures
            r is Ok <==> (hex_valid(spec_strip_0x(s@)) && spec_hex_decode(spec_strip_0x(s@)).len()
                == 32),
            r is Ok ==> r->Ok_0@ == spec_hex_decode(spec_strip_0x(s@)),
    {
        match decode_hex_bytes(s, 32) {
            Ok(bytes) => Ok(Preimage { bytes }),
            Err(e) => Err(e),
        }
    }

    /// The underlying bytes.
    pub fn as_bytes(&self) -> (r: &Vec<u8>)
        ensures
            r@ == self@,
    {
        &self.bytes
    }

    /// The lower-case hex encoding with a `0x` prefix.
    pub fn to_hex(&self) -> (r: String)
        ensures
            r@ == seq!['0', 'x'] + spec_hex_encode(self@),
    {
        to_prefixed_hex(&self.bytes)
    }

    /// Computes the payment hash of this preimage.
    pub fn payment_hash(&self) -> (r: PaymentHash)
        ensures
            r@ == ckb_hash_of(self@),
            r@.len() == 32,
    {
        PaymentHash { bytes: ckb_hash32(&self.bytes) }
    }
}

impl Clone for Preimage {
    /// Copies the preimage bytes.
    fn clone(&self) -> (r: Self)
        ensures
            r@ == self@,
    {
        Preimage { bytes: clone_bytes(&self.bytes) }
    }
}

impl PaymentHash {
    /// Wraps raw bytes as a payment hash.
    pub fn from_bytes(bytes: Vec<u8>) -> (r: Self)
        ensures
            r@ == bytes@,
    {
        PaymentHash { bytes }
    }

    /// Parses a hex string, with or without a `0x` prefix, into a
    /// 32-byte payment hash.
    pub fn from_hex(s: &str) -> (r: Result<Self, HexError>)
        ensures
            r is Ok <==> (hex_valid(spec_strip_0x(s@)) && spec_hex_decode(spec_strip_0x(s@)).len()
                == 32),
            r is Ok ==> r->Ok_0@ == spec_hex_decode(spec_strip_0x(s@)),
    {
        match decode_hex_bytes(s, 32) {
            Ok(bytes) => Ok(PaymentHash { bytes }),
            Err(e) => Err(e),
        }
    }

    /// The underlying bytes.
    pub fn as_bytes(&self) -> (r: &Vec<u8>)
        ensures
            r@ == self@,
    {
        &self.bytes
    }

    /// The lower-case hex encoding with a `0x` prefix.
    pub fn to_hex(&self) -> (r: String)
        ensures
            r@ == seq!['0', 'x'] + spec_hex_encode(self@),
    {
        to_prefixed_hex(&self.bytes)
    }

    /// Returns whether `preimage` hashes to this payment hash.
    pub fn verify(&self, preimage: &Preimage) -> (r: bool)
        ensures
            r == spec_hash_matches(self@, preimage@),
    {
        let computed = preimage.payment_hash();
        let r = crate::bytes::bytes_eq(&computed.bytes, &self.bytes);
        proof {
            assert(computed@ == ckb_hash_of(preimage@));
        }
        r
    }
}

impl Clone for PaymentHash {
    /// Copies the hash bytes.
    fn clone(&self) -> (r: Self)
        ensures
            r@ == self@,
    {
        PaymentHash { bytes: clone_bytes(&self.bytes) }
    }
}

impl PartialEq for PaymentHash {
    fn eq(&self, other: &Self) -> (r: bool) {
        crate::bytes::bytes_eq(&self.bytes, &other.bytes)
    }
}

impl Eq for PaymentHash {

}

impl vstd::std_specs::cmp::PartialEqSpecImpl for PaymentHash {
    open spec fn obeys_eq_spec() -> bool {
        true
    }

    open spec fn eq_spec(&self, other: &Self) -> bool {
        self@ == other@
    }
}

/// Encodes bytes as lower-case hex with a `0x` prefix.
pub fn to_prefixed_hex(bytes: &Vec<u8>) -> (r: String)
    ensures
        r@ == seq!['0', 'x'] + spec_hex_encode(bytes@),
{
    let digits = hex_encode(bytes);
    let mut r = String::new();
    r.append("0x");
    r.append(digits.as_str());
    proof {
        reveal_strlit("0x");
        assert(r@ =~= seq!['0', 'x'] + spec_hex_encode(bytes@));
    }
    r
}

/// Whether `h` is the payment hash of the preimage `p`.
pub open spec fn spec_hash_matches(h: Seq<u8>, p: Seq<u8>) -> bool {
    h == ckb_hash_of(p)
}

/// Hash determinism: the payment hash computed from a preimage `p` is a
/// function of `p` alone, and it verifies against `p`.
pub proof fn lemma_hash_verify_roundtrip(p: Seq<u8>)
    ensures
        spec_hash_matches(ckb_hash_of(p), p),
{
}

} // verus!
