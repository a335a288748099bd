//! Tests for the cryptographic primitives: preimages and payment
//! hashes, commitments, signature points and encrypted preimages.

use fiber_protocol::adaptor::{compute_signature_points, EncryptedPreimage, SignaturePoint};
use fiber_protocol::commitment::{Commitment, Salt};
use fiber_protocol::oracle::generate_keypair;
use fiber_protocol::payment::{PaymentHash, Preimage};
use fiber_protocol::protocol::{GameId, GameResult};
use sha2::Digest;

#[test]
fn test_preimage_hash_roundtrip() {
    let preimage = Preimage::random();
    let hash = preimage.payment_hash();

    assert!(hash.verify(&preimage));
}

#[test]
fn test_different_preimages_different_hashes() {
    let preimage1 = Preimage::random();
    let preimage2 = Preimage::random();

    assert_ne!(preimage1.payment_hash(), preimage2.payment_hash());
}

#[test]
fn test_wrong_preimage_fails_verification() {
    let preimage1 = Preimage::random();
    let preimage2 = Preimage::random();
    let hash1 = preimage1.payment_hash();

    assert!(!hash1.verify(&preimage2));
}

#[test]
fn hash_injectivity_sampled() {
    let mut hashes: Vec<String> = Vec::new();
    for _ in 0..1000 {
        hashes.push(Preimage::random().payment_hash().to_hex());
    }
    hashes.sort();
    for pair in hashes.windows(2) {
        assert_ne!(pair[0], pair[1]);
    }
}

#[test]
fn payment_hash_matches_reference_blake2b() {
    let preimage = Preimage::from_bytes(vec![7u8; 32]);
    let hash = preimage.payment_hash();

    let mut reference = blake2b_rs::Blake2bBuilder::new(32)
        .personal(b"ckb-default-hash")
        .build();
    reference.update(&[7u8; 32]);
    let mut out = [0u8; 32];
    reference.finalize(&mut out);

    assert_eq!(hash.as_bytes().as_slice(), &out[..]);
}

#[test]
fn hex_round_trip_with_and_without_prefix() {
    let bytes: Vec<u8> = (0u8..32).collect();
    let preimage = Preimage::from_bytes(bytes.clone());
    let encoded = preimage.to_hex();
    assert!(encoded.starts_with("0x"));
    assert_eq!(encoded, format!("0x{}", hex::encode(&bytes)));

    let reparsed = Preimage::from_hex(&encoded).unwrap();
    assert_eq!(reparsed.as_bytes(), &bytes);
    let reparsed_bare = Preimage::from_hex(encoded.strip_prefix("0x").unwrap()).unwrap();
    assert_eq!(reparsed_bare.as_bytes(), &bytes);

    assert!(PaymentHash::from_hex("0xzz").is_err());
    assert!(PaymentHash::from_hex("0x0011").is_err());
    assert!(PaymentHash::from_hex("abc").is_err());
}

#[test]
fn test_commitment_verification() {
    let action = b"Rock".to_vec();
    let salt = Salt::random();
    let commitment = Commitment::new(&action, &salt);

    assert!(commitment.verify(&action, &salt));
}

#[test]
fn test_different_actions_different_commitments() {
    let salt = Salt::random();
    let commitment1 = Commitment::new(&b"Rock".to_vec(), &salt);
    let commitment2 = Commitment::new(&b"Paper".to_vec(), &salt);

    assert_ne!(commitment1, commitment2);
}

#[test]
fn test_different_salts_different_commitments() {
    let action = b"Rock".to_vec();
    let salt1 = Salt::random();
    let salt2 = Salt::random();
    let commitment1 = Commitment::new(&action, &salt1);
    let commitment2 = Commitment::new(&action, &salt2);

    assert_ne!(commitment1, commitment2);
}

#[test]
fn test_wrong_action_fails_verification() {
    let salt = Salt::random();
    let commitment = Commitment::new(&b"Rock".to_vec(), &salt);

    assert!(!commitment.verify(&b"Paper".to_vec(), &salt));
}

#[test]
fn test_wrong_salt_fails_verification() {
    let action = b"Rock".to_vec();
    let salt1 = Salt::random();
    let salt2 = Salt::random();
    let commitment = Commitment::new(&action, &salt1);

    assert!(!commitment.verify(&action, &salt2));
}

#[test]
fn commitment_matches_reference_sha256() {
    let salt = Salt::from_bytes(vec![9u8; 32]);
    let commitment = Commitment::new(&b"Rock".to_vec(), &salt);

    let mut hasher = sha2::Sha256::new();
    hasher.update(b"Rock");
    hasher.update(&[9u8; 32]);
    let expected = hasher.finalize();

    assert_eq!(commitment.as_bytes().as_slice(), expected.as_slice());
}

#[test]
fn test_encrypted_preimage_encrypt_decrypt() {
    let preimage = Preimage::random();
    let payment_hash = preimage.payment_hash();

    let (_, oracle_pubkey) = generate_keypair();
    let (_, commitment_point) = generate_keypair();
    let game_id = GameId::new();

    let points = compute_signature_points(&oracle_pubkey, &commitment_point, &game_id).unwrap();

    let encrypted = EncryptedPreimage::encrypt(&preimage, &points.a_wins);
    let decrypted = encrypted.decrypt(&points.a_wins);

    assert!(payment_hash.verify(&decrypted));
    assert_eq!(preimage.as_bytes(), decrypted.as_bytes());
}

#[test]
fn test_wrong_signature_point_fails() {
    let preimage = Preimage::random();
    let payment_hash = preimage.payment_hash();

    let (_, oracle_pubkey) = generate_keypair();
    let (_, commitment_point) = generate_keypair();
    let game_id = GameId::new();

    let points = compute_signature_points(&oracle_pubkey, &commitment_point, &game_id).unwrap();

    let encrypted = EncryptedPreimage::encrypt(&preimage, &points.a_wins);
    let decrypted = encrypted.decrypt(&points.b_wins);

    assert!(!payment_hash.verify(&decrypted));
}

#[test]
fn test_encryption_is_symmetric() {
    let preimage = Preimage::random();

    let (_, oracle_pubkey) = generate_keypair();
    let (_, commitment_point) = generate_keypair();
    let game_id = GameId::new();

    let sig_point =
        SignaturePoint::compute(&oracle_pubkey, &commitment_point, &game_id, &GameResult::AWins)
            .unwrap();

    let encrypted = EncryptedPreimage::encrypt(&preimage, &sig_point);
    let double_encrypted = EncryptedPreimage::encrypt(
        &Preimage::from_bytes(encrypted.as_bytes().clone()),
        &sig_point,
    );

    assert_eq!(preimage.as_bytes(), double_encrypted.as_bytes());
}

#[test]
fn test_signature_point_computation() {
    let (_, oracle_pubkey) = generate_keypair();
    let (_, commitment_point) = generate_keypair();
    let game_id = GameId::new();

    let sig_point =
        SignaturePoint::compute(&oracle_pubkey, &commitment_point, &game_id, &GameResult::AWins)
            .unwrap();

    assert_eq!(sig_point.to_bytes().len(), 33);
}

#[test]
fn test_different_results_different_points() {
    let (_, oracle_pubkey) = generate_keypair();
    let (_, commitment_point) = generate_keypair();
    let game_id = GameId::new();

    let points = compute_signature_points(&oracle_pubkey, &commitment_point, &game_id).unwrap();

    assert_ne!(points.a_wins, points.b_wins);
    assert_ne!(points.a_wins, points.draw);
    assert_ne!(points.b_wins, points.draw);
}

#[test]
fn test_deterministic_computation() {
    let (_, oracle_pubkey) = generate_keypair();
    let (_, commitment_point) = generate_keypair();
    let game_id = GameId::new();

    let point1 =
        SignaturePoint::compute(&oracle_pubkey, &commitment_point, &game_id, &GameResult::AWins)
            .unwrap();
    let point2 =
        SignaturePoint::compute(&oracle_pubkey, &commitment_point, &game_id, &GameResult::AWins)
            .unwrap();

    assert_eq!(point1, point2);
}

#[test]
fn signature_point_matches_reference_secp256k1() {
    let (_, oracle_pubkey) = generate_keypair();
    let (_, commitment_point) = generate_keypair();
    let game_id = GameId::new();

    let point = SignaturePoint::compute(
        &oracle_pubkey,
        &commitment_point,
        &game_id,
        &GameResult::BWins,
    )
    .unwrap();

    let mut hasher = sha2::Sha256::new();
    hasher.update(&commitment_point);
    hasher.update(&oracle_pubkey);
    hasher.update(game_id.as_u128().to_be_bytes());
    hasher.update(b"B wins");
    let challenge: [u8; 32] = hasher.finalize().into();

    let oracle = secp256k1::PublicKey::from_slice(&oracle_pubkey).unwrap();
    let nonce = secp256k1::PublicKey::from_slice(&commitment_point).unwrap();
    let scalar = secp256k1::Scalar::from_be_bytes(challenge).unwrap();
    let expected = nonce.combine(&oracle.mul_tweak(&scalar).unwrap()).unwrap();

    assert_eq!(point.to_bytes().as_slice(), &expected.serialize()[..]);
}
