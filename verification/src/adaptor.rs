//! Adaptor signature points and XOR-encrypted preimages.
//!
//! For a game with oracle key `O`, per-game nonce point `R` and
//! identifier `id`, each outcome label gets the point
//! `S = R + SHA-256(R || O || id || label)·O`. A preimage encrypted
//! against `S` is `preimage XOR SHA-256(S)`; the operation is its own
//! inverse, so whoever knows the right point recovers the preimage.

use vstd::prelude::*;

use crate::bytes::{bytes_eq, clone_bytes, concat_bytes};
use crate::errors::CryptoError;
use crate::hashing::{sha256, sha256_of};
use crate::payment::Preimage;
use crate::protocol::{spec_result_label_bytes, spec_u128_be_bytes, GameId, GameResult};

verus! {

/// What secp256k1 returns for `nonce + scalar·oracle`, all three inputs
/// given as byte strings: a function of the arguments alone.
pub uninterp spec fn adaptor_point_of(oracle: Seq<u8>, nonce: Seq<u8>, scalar: Seq<u8>) -> Seq<u8>;

/// Whether that computation succeeds: both byte strings encode valid
/// curve points, the scalar is within the curve order, the product is
/// not infinity and neither is the sum. Like the point itself, this is
/// a function of the three arguments alone.
pub uninterp spec fn adaptor_combine_ok(oracle: Seq<u8>, nonce: Seq<u8>, scalar: Seq<u8>) -> bool;

/// Relies on secp256k1: parses the two compressed points and the
/// big-endian scalar, multiplies the oracle key by the scalar modulo the
/// curve order, adds the nonce point, and serializes the sum compressed.
/// Every step is deterministic in the inputs, so both the result and
/// whether the call succeeds are functions of the arguments alone.
#[verifier::external_body]
fn secp_adaptor_combine(oracle_pk: &Vec<u8>, nonce_pk: &Vec<u8>, scalar: &Vec<u8>) -> (r: Result<
    Vec<u8>,
    CryptoError,
>)
    requires
        scalar@.len() == 32,
    ensures
        r is Ok <==> adaptor_combine_ok(oracle_pk@, nonce_pk@, scalar@),
        r is Ok ==> r->Ok_0@ == adaptor_point_of(oracle_pk@, nonce_pk@, scalar@),
        r is Ok ==> r->Ok_0@.len() == 33,
        r is Err ==> r->Err_0 == CryptoError::InvalidPoint,
{
    let e = CryptoError::InvalidPoint;
    let oracle = secp256k1::PublicKey::from_slice(oracle_pk.as_slice()).map_err(|_| e)?;
    let nonce = secp256k1::PublicKey::from_slice(nonce_pk.as_slice()).map_err(|_| e)?;
    let mut arr = [0u8; 32];
    arr.copy_from_slice(scalar.as_slice());
    let tweak = secp256k1::Scalar::from_be_bytes(arr).map_err(|_| e)?;
    let tweaked = oracle.mul_tweak(&tweak).map_err(|_| e)?;
    let combined = nonce.combine(&tweaked).map_err(|_| e)?;
    Ok(combined.serialize().to_vec())
}

/// The challenge hashed into the adaptor point:
/// `SHA-256(R || O || game_id || label)`.
pub open spec fn spec_challenge(
    oracle: Seq<u8>,
    nonce: Seq<u8>,
    game_id: GameId,
    result: GameResult,
) -> Seq<u8> {
    sha256_of(nonce + oracle + spec_u128_be_bytes(game_id.value) + spec_result_label_bytes(result))
}

/// The signature point of an outcome:
/// `R + SHA-256(R || O || game_id || label)·O`.
pub open spec fn spec_signature_point(
    oracle: Seq<u8>,
    nonce: Seq<u8>,
    game_id: GameId,
    result: GameResult,
) -> Seq<u8> {
    adaptor_point_of(oracle, nonce, spec_challenge(oracle, nonce, game_id, result))
}

/// Whether the signature point of an outcome can be computed: the
/// curve computation succeeds on the two points and the outcome's
/// challenge. On honest points this fails only when the challenge hash
/// falls outside the curve order, which has negligible probability.
pub open spec fn spec_signature_point_ok(
    oracle: Seq<u8>,
    nonce: Seq<u8>,
    game_id: GameId,
    result: GameResult,
) -> bool {
    adaptor_combine_ok(oracle, nonce, spec_challenge(oracle, nonce, game_id, result))
}

/// A signature point: the compressed encoding of the curve point tied
/// to one outcome of one game.
#[derive(Debug)]
pub struct SignaturePoint {
    bytes: Vec<u8>,
}

impl View for SignaturePoint {
    type V = Seq<u8>;

    closed spec fn view(&self) -> Seq<u8> {
        self.bytes@
    }
}

impl SignaturePoint {
    /// Computes the signature point for one outcome. `oracle_pubkey` and
    /// `commitment_point` are compressed points; the computation fails
    /// only on invalid points or a hash that falls outside the scalar
    /// range, which has negligible probability for honest inputs.
    pub fn compute(
        oracle_pubkey: &Vec<u8>,
        commitment_point: &Vec<u8>,
        game_id: &GameId,
        result: &GameResult,
    ) -> (r: Result<Self, CryptoError>)
        ensures
            r is Ok <==> spec_signature_point_ok(
                oracle_pubkey@,
                commitment_point@,
                *game_id,
                *result,
            ),
            r is Ok ==> r->Ok_0@ == spec_signature_point(
                oracle_pubkey@,
                commitment_point@,
                *game_id,
                *result,
            ),
            r is Ok ==> r->Ok_0@.len() == 33,
            r is Err ==> r->Err_0 == CryptoError::InvalidPoint,
    {
        let mut message = clone_bytes(commitment_point);
        let oracle_copy = clone_bytes(oracle_pubkey);
        let id_bytes = game_id.as_bytes();
        let label = result.label_bytes();
        let message = concat_bytes(
            &concat_bytes(&concat_bytes(&message, &oracle_copy), &id_bytes),
            &label,
        );
        let challenge = sha256(&message);
        proof {
            assert(message@ =~= commitment_point@ + oracle_pubkey@ + spec_u128_be_bytes(
                game_id.value,
            ) + spec_result_label_bytes(*result));
        }
        match secp_adaptor_combine(oracle_pubkey, commitment_point, &challenge) {
            Ok(bytes) => Ok(SignaturePoint { bytes }),
            Err(e) => Err(e),
        }
    }

    /// Wraps a compressed point encoding.
    pub fn from_bytes(bytes: Vec<u8>) -> (r: Self)
        ensures
            r@ == bytes@,
    {
        SignaturePoint { bytes }
    }

    /// The compressed encoding of the point.
    pub fn to_bytes(&self) -> (r: &Vec<u8>)
        ensures
            r@ == self@,
    {
        &self.bytes
    }

    /// The XOR mask of this point: `SHA-256(S)`.
    pub fn hash(&self) -> (r: Vec<u8>)
        ensures
            r@ == sha256_of(self@),
            r@.len() == 32,
    {
        sha256(&self.bytes)
    }
}

impl Clone for SignaturePoint {
    /// Copies the point encoding.
    fn clone(&self) -> (r: Self)
        ensures
            r@ == self@,
    {
        SignaturePoint { bytes: clone_bytes(&self.bytes) }
    }
}

impl PartialEq for SignaturePoint {
    fn eq(&self, other: &Self) -> (r: bool) {
        bytes_eq(&self.bytes, &other.bytes)
    }
}

impl Eq for SignaturePoint {

}

impl vstd::std_specs::cmp::PartialEqSpecImpl for SignaturePoint {
    open spec fn obeys_eq_spec() -> bool {
        true
    }

    open spec fn eq_spec(&self, other: &Self) -> bool {
        self@ == other@
    }
}

/// The signature points of the three possible outcomes of one game.
#[derive(Debug)]
pub struct SignaturePoints {
    pub a_wins: SignaturePoint,
    pub b_wins: SignaturePoint,
    pub draw: SignaturePoint,
}

/// Computes the signature points of all three outcomes.
pub fn compute_signature_points(
    oracle_pubkey: &Vec<u8>,
    commitment_point: &Vec<u8>,
    game_id: &GameId,
) -> (r: Result<SignaturePoints, CryptoError>)
    ensures
        r is Ok <==> (spec_signature_point_ok(
            oracle_pubkey@,
            commitment_point@,
            *game_id,
            GameResult::AWins,
        ) && spec_signature_point_ok(
            oracle_pubkey@,
            commitment_point@,
            *game_id,
            GameResult::BWins,
        ) && spec_signature_point_ok(
            oracle_pubkey@,
            commitment_point@,
            *game_id,
            GameResult::Draw,
        )),
        r is Ok ==> r->Ok_0.a_wins@ == spec_signature_point(
            oracle_pubkey@,
            commitment_point@,
            *game_id,
            GameResult::AWins,
        ),
        r is Ok ==> r->Ok_0.b_wins@ == spec_signature_point(
            oracle_pubkey@,
            commitment_point@,
            *game_id,
            GameResult::BWins,
        ),
        r is Ok ==> r->Ok_0.draw@ == spec_signature_point(
            oracle_pubkey@,
            commitment_point@,
            *game_id,
            GameResult::Draw,
        ),
{
    let a_wins = match SignaturePoint::compute(
        oracle_pubkey,
        commitment_point,
        game_id,
        &GameResult::AWins,
    ) {
        Ok(p) => p,
        Err(e) => return Err(e),
    };
    let b_wins = match SignaturePoint::compute(
        oracle_pubkey,
        commitment_point,
        game_id,
        &GameResult::BWins,
    ) {
        Ok(p) => p,
        Err(e) => return Err(e),
    };
    let draw = match SignaturePoint::compute(
        oracle_pubkey,
        commitment_point,
        game_id,
        &GameResult::Draw,
    ) {
        Ok(p) => p,
        Err(e) => return Err(e),
    };
    Ok(SignaturePoints { a_wins, b_wins, draw })
}

/// The bytewise XOR of two equally long byte strings.
pub open spec fn spec_xor(a: Seq<u8>, b: Seq<u8>) -> Seq<u8> {
    Seq::new(a.len(), |i: int| a[i] ^ b[i])
}

/// XOR with the same mask twice gives the original string back.
pub proof fn lemma_xor_involution(a: Seq<u8>, m: Seq<u8>)
    ensures
        spec_xor(spec_xor(a, m), m) == a,
{
    assert forall|i: int| 0 <= i < a.len() implies spec_xor(spec_xor(a, m), m)[i] == a[i] by {
        let x = a[i];
        let y = m[i];
        assert((x ^ y) ^ y == x) by (bit_vector);
    }
    assert(spec_xor(spec_xor(a, m), m) =~= a);
}

/// A preimage encrypted against a signature point:
/// `preimage XOR SHA-256(S)`.
#[derive(Debug)]
pub struct EncryptedPreimage {
    bytes: Vec<u8>,
}

impl View for EncryptedPreimage {
    type V = Seq<u8>;

    closed spec fn view(&self) -> Seq<u8> {
        self.bytes@
    }
}

/// Computes the bytewise XOR of `data` with the first `data.len()` bytes
/// of `mask`.
fn xor_bytes(data: &Vec<u8>, mask: &Vec<u8>) -> (r: Vec<u8>)
    requires
        data@.len() <= mask@.len(),
    ensures
        r@ == spec_xor(data@, mask@),
{
    let mut r: Vec<u8> = Vec::new();
    let mut i: usize = 0;
    while i < data.len()
        invariant
            i <= data@.len(),
            data@.len() <= mask@.len(),
            r@.len() == i,
            forall|j: int| 0 <= j < i ==> r@[j] == (data@[j] ^ mask@[j]),
        decreases data@.len() - i,
    {
        r.push(data[i] ^ mask[i]);
        i = i + 1;
    }
    proof {
        assert(r@ =~= spec_xor(data@, mask@));
    }
    r
}

impl EncryptedPreimage {
    /// Encrypts a 32-byte preimage against a signature point.
    pub fn encrypt(preimage: &Preimage, sig_point: &SignaturePoint) -> (r: Self)
        requires
            preimage@.len() == 32,
        ensures
            r@ == spec_xor(preimage@, sha256_of(sig_point@)),
            r@.len() == 32,
    {
        let mask = sig_point.hash();
        let bytes = xor_bytes(preimage.as_bytes(), &mask);
        EncryptedPreimage { bytes }
    }

    /// Decrypts with a signature point; recovers the preimage exactly
    /// when the point is the one it was encrypted against.
    pub fn decrypt(&self, sig_point: &SignaturePoint) -> (r: Preimage)
        requires
            self@.len() == 32,
        ensures
            r@ == spec_xor(self@, sha256_of(sig_point@)),
            r@.len() == 32,
    {
        let mask = sig_point.hash();
        let bytes = xor_bytes(&self.bytes, &mask);
        Preimage::from_bytes(bytes)
    }

    /// Wraps raw bytes as an encrypted preimage.
    pub fn from_bytes(bytes: Vec<u8>) -> (r: Self)
        ensures
            r@ == bytes@,
    {
        EncryptedPreimage { bytes }
    }

    /// The underlying bytes.
    pub fn as_bytes(&self) -> (r: &Vec<u8>)
        ensures
            r@ == self@,
    {
        &self.bytes
    }
}

impl Clone for EncryptedPreimage {
    /// Copies the encrypted bytes.
    fn clone(&self) -> (r: Self)
        ensures
            r@ == self@,
    {
        EncryptedPreimage { bytes: clone_bytes(&self.bytes) }
    }
}

/// The oracle's signature over a game result, together with the signed
/// message; the signature point it corresponds to is recomputed from
/// the public per-game parameters.
#[derive(Debug)]
pub struct OracleSignature {
    /// The 64-byte signature.
    pub signature: Vec<u8>,
    /// The signed message.
    pub message: Vec<u8>,
}

impl OracleSignature {
    /// Recomputes the signature point this signature stands for, from
    /// the oracle's public key, the per-game nonce point, the game
    /// identifier and the outcome label.
    pub fn derive_signature_point(
        &self,
        oracle_pubkey: &Vec<u8>,
        commitment_point: &Vec<u8>,
        game_id: &GameId,
        result: &GameResult,
    ) -> (r: Result<SignaturePoint, CryptoError>)
        ensures
            r is Ok <==> spec_signature_point_ok(
                oracle_pubkey@,
                commitment_point@,
                *game_id,
                *result,
            ),
            r is Ok ==> r->Ok_0@ == spec_signature_point(
                oracle_pubkey@,
                commitment_point@,
                *game_id,
                *result,
            ),
    {
        SignaturePoint::compute(oracle_pubkey, commitment_point, game_id, result)
    }
}

/// Adaptor correctness: encrypting a 32-byte preimage against a
/// signature point and decrypting with the same point recovers the
/// preimage.
pub proof fn lemma_adaptor_roundtrip(p: Seq<u8>, point: Seq<u8>)
    requires
        p.len() == 32,
    ensures
        spec_xor(spec_xor(p, sha256_of(point)), sha256_of(point)) == p,
{
    lemma_xor_involution(p, sha256_of(point));
}

} // verus!
