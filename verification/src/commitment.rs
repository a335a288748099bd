//! Salt and commitment for the commit-reveal discipline.
//!
//! A commitment is `SHA-256(action_bytes || salt)`; revealing the action
//! and the salt lets anyone re-compute and check it.

use vstd::prelude::*;

use crate::bytes::{bytes_eq, clone_bytes, concat_bytes};
use crate::hashing::{sha256, sha256_of};

verus! {

/// A 32-byte random salt, one per committed action.
#[derive(Debug)]
pub struct Salt {
    bytes: Vec<u8>,
}

/// A 32-byte commitment to an action under a salt.
#[derive(Debug)]
pub struct Commitment {
    bytes: Vec<u8>,
}

impl View for Salt {
    type V = Seq<u8>;

    closed spec fn view(&self) -> Seq<u8> {
        self.bytes@
    }
}

impl View for Commitment {
    type V = Seq<u8>;

    closed spec fn view(&self) -> Seq<u8> {
        self.bytes@
    }
}

/// The commitment value for an action and a salt.
pub open spec fn spec_commitment(action: Seq<u8>, salt: Seq<u8>) -> Seq<u8> {
    sha256_of(action + salt)
}

impl Salt {
    /// Draws a fresh 32-byte salt from the CSPRNG.
    pub fn random() -> (r: Self)
        ensures
            r@.len() == 32,
    {
        Salt { bytes: crate::payment::random_bytes(32) }
    }

    /// Wraps raw bytes as a salt.
    pub fn from_bytes(bytes: Vec<u8>) -> (r: Self)
        ensures
            r@ == bytes@,
    {
        Salt { bytes }
    }

    /// The underlying bytes.
    pub fn as_bytes(&self) -> (r: &Vec<u8>)
        ensures
            r@ == self@,
    {
        &self.bytes
    }
}

impl Clone for Salt {
    /// Copies the salt bytes.
    fn clone(&self) -> (r: Self)
        ensures
            r@ == self@,
    {
        Salt { bytes: clone_bytes(&self.bytes) }
    }
}

impl Commitment {
    /// Commits to `action_bytes` under `salt`.
    pub fn new(action_bytes: &Vec<u8>, salt: &Salt) -> (r: Self)
        ensures
            r@ == spec_commitment(action_bytes@, salt@),
            r@.len() == 32,
    {
        let joined = concat_bytes(action_bytes, &salt.bytes);
        Commitment { bytes: sha256(&joined) }
    }

    /// Wraps raw bytes as a commitment.
    pub fn from_bytes(bytes: Vec<u8>) -> (r: Self)
        ensures
            r@ == bytes@,
    {
        Commitment { bytes }
    }

    /// The underlying bytes.
    pub fn as_bytes(&self) -> (r: &Vec<u8>)
        ensures
            r@ == self@,
    {
        &self.bytes
    }

    /// Returns whether revealing `action_bytes` and `salt` matches this
    /// commitment.
    pub fn verify(&self, action_bytes: &Vec<u8>, salt: &Salt) -> (r: bool)
        ensures
            r == (self@ == spec_commitment(action_bytes@, salt@)),
    {
        let recomputed = Commitment::new(action_bytes, salt);
        bytes_eq(&self.bytes, &recomputed.bytes)
    }
}

impl Clone for Commitment {
    /// Copies the commitment bytes.
    fn clone(&self) -> (r: Self)
        ensures
            r@ == self@,
    {
        Commitment { bytes: clone_bytes(&self.bytes) }
    }
}

impl PartialEq for Commitment {
    fn eq(&self, other: &Self) -> (r: bool) {
        bytes_eq(&self.bytes, &other.bytes)
    }
}

impl Eq for Commitment {

}

impl vstd::std_specs::cmp::PartialEqSpecImpl for Commitment {
    open spec fn obeys_eq_spec() -> bool {
        true
    }

    open spec fn eq_spec(&self, other: &Self) -> bool {
        self@ == other@
    }
}

} // verus!
