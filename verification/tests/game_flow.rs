//! Full game flows: both players, the oracle engine, the mock
//! hold-invoice clients, and the adaptor construction end to end.

use fiber_protocol::adaptor::{compute_signature_points, EncryptedPreimage};
use fiber_protocol::commitment::{Commitment, Salt};
use fiber_protocol::errors::ProtocolError;
use fiber_protocol::games::{GameAction, GameJudge, GameType, GuessNumberGame, OracleSecret, RpsAction, RpsGame};
use fiber_protocol::mock::MockFiberClient;
use fiber_protocol::oracle::{generate_keypair, GameStatus, OracleEngine, RevealOutcome};
use fiber_protocol::payment::Preimage;
use fiber_protocol::player::{PlayerGamePhase, PlayerSession, SettleAction};
use fiber_protocol::protocol::{GameId, GameResult, Player};

#[test]
fn test_full_rps_game_a_wins() {
    let (_, oracle_pk) = generate_keypair();
    let (_, commitment_point) = generate_keypair();
    let game_id = GameId::new();

    let preimage_a = Preimage::random();
    let payment_hash_a = preimage_a.payment_hash();
    let action_a = GameAction::Rps(RpsAction::Rock);
    let salt_a = Salt::random();

    let preimage_b = Preimage::random();
    let payment_hash_b = preimage_b.payment_hash();
    let action_b = GameAction::Rps(RpsAction::Scissors);
    let salt_b = Salt::random();

    let mut fiber_a = MockFiberClient::new(10_000);
    let mut fiber_b = MockFiberClient::new(10_000);

    let invoice_a = fiber_a.create_hold_invoice(&payment_hash_a, 1000, 3600).unwrap();
    let invoice_b = fiber_b.create_hold_invoice(&payment_hash_b, 1000, 3600).unwrap();

    fiber_a.pay_hold_invoice(&invoice_b).unwrap();
    fiber_b.pay_hold_invoice(&invoice_a).unwrap();

    assert_eq!(fiber_a.balance(), 9000);
    assert_eq!(fiber_b.balance(), 9000);

    let sig_points = compute_signature_points(&oracle_pk, &commitment_point, &game_id).unwrap();

    let _encrypted_preimage_a = EncryptedPreimage::encrypt(&preimage_a, &sig_points.b_wins);
    let encrypted_preimage_b = EncryptedPreimage::encrypt(&preimage_b, &sig_points.a_wins);

    let commit_a = Commitment::new(&action_a.to_bytes(), &salt_a);
    let commit_b = Commitment::new(&action_b.to_bytes(), &salt_b);

    assert!(commit_a.verify(&action_a.to_bytes(), &salt_a));
    assert!(commit_b.verify(&action_b.to_bytes(), &salt_b));

    let result = RpsGame::judge(&action_a, &action_b, None);
    assert_eq!(result, GameResult::AWins);

    let decrypted_preimage_b = encrypted_preimage_b.decrypt(&sig_points.a_wins);
    assert!(payment_hash_b.verify(&decrypted_preimage_b));

    fiber_a.settle_invoice(&payment_hash_b, &decrypted_preimage_b).unwrap();

    fiber_b.cancel_invoice(&payment_hash_a).unwrap();

    assert_eq!(fiber_a.balance(), 10000);
    assert_eq!(fiber_b.balance(), 9000);
}

#[test]
fn test_full_rps_game_draw() {
    let action_a = GameAction::Rps(RpsAction::Rock);
    let action_b = GameAction::Rps(RpsAction::Rock);

    let preimage_a = Preimage::random();
    let preimage_b = Preimage::random();
    let payment_hash_a = preimage_a.payment_hash();
    let payment_hash_b = preimage_b.payment_hash();

    let mut fiber_a = MockFiberClient::new(10_000);
    let mut fiber_b = MockFiberClient::new(10_000);

    let invoice_a = fiber_a.create_hold_invoice(&payment_hash_a, 1000, 3600).unwrap();
    let invoice_b = fiber_b.create_hold_invoice(&payment_hash_b, 1000, 3600).unwrap();

    fiber_a.pay_hold_invoice(&invoice_b).unwrap();
    fiber_b.pay_hold_invoice(&invoice_a).unwrap();

    let result = RpsGame::judge(&action_a, &action_b, None);
    assert_eq!(result, GameResult::Draw);

    fiber_a.cancel_invoice(&payment_hash_b).unwrap();
    fiber_b.cancel_invoice(&payment_hash_a).unwrap();

    assert_eq!(fiber_a.balance(), 9000);
    assert_eq!(fiber_b.balance(), 9000);
}

#[test]
fn full_game_flow_test_guess_number_b_wins() {
    let (_, oracle_pk) = generate_keypair();
    let (_, commitment_point) = generate_keypair();
    let game_id = GameId::new();

    let oracle_secret = OracleSecret::with_number(50);
    let oracle_commitment = oracle_secret.commitment();

    let action_a = GameAction::GuessNumber(30);
    let action_b = GameAction::GuessNumber(48);

    let preimage_a = Preimage::random();
    let preimage_b = Preimage::random();
    let payment_hash_a = preimage_a.payment_hash();
    let payment_hash_b = preimage_b.payment_hash();
    let salt_a = Salt::random();
    let salt_b = Salt::random();

    let mut fiber_a = MockFiberClient::new(10_000);
    let mut fiber_b = MockFiberClient::new(10_000);

    let invoice_a = fiber_a.create_hold_invoice(&payment_hash_a, 1000, 3600).unwrap();
    let invoice_b = fiber_b.create_hold_invoice(&payment_hash_b, 1000, 3600).unwrap();

    fiber_a.pay_hold_invoice(&invoice_b).unwrap();
    fiber_b.pay_hold_invoice(&invoice_a).unwrap();

    let sig_points = compute_signature_points(&oracle_pk, &commitment_point, &game_id).unwrap();

    let encrypted_preimage_a = EncryptedPreimage::encrypt(&preimage_a, &sig_points.b_wins);
    let _encrypted_preimage_b = EncryptedPreimage::encrypt(&preimage_b, &sig_points.a_wins);

    let commit_a = Commitment::new(&action_a.to_bytes(), &salt_a);
    let commit_b = Commitment::new(&action_b.to_bytes(), &salt_b);

    assert!(commit_a.verify(&action_a.to_bytes(), &salt_a));
    assert!(commit_b.verify(&action_b.to_bytes(), &salt_b));

    assert!(oracle_secret.verify_commitment(&oracle_commitment));

    let result = GuessNumberGame::judge(&action_a, &action_b, Some(&oracle_secret));
    assert_eq!(result, GameResult::BWins);

    let decrypted_preimage_a = encrypted_preimage_a.decrypt(&sig_points.b_wins);
    assert!(payment_hash_a.verify(&decrypted_preimage_a));

    fiber_b.settle_invoice(&payment_hash_a, &decrypted_preimage_a).unwrap();

    fiber_a.cancel_invoice(&payment_hash_b).unwrap();

    assert_eq!(fiber_a.balance(), 9000);
    assert_eq!(fiber_b.balance(), 10000);
}

#[test]
fn test_wrong_signature_point_fails_decryption() {
    let (_, oracle_pk) = generate_keypair();
    let (_, commitment_point) = generate_keypair();
    let game_id = GameId::new();

    let preimage = Preimage::random();
    let payment_hash = preimage.payment_hash();

    let sig_points = compute_signature_points(&oracle_pk, &commitment_point, &game_id).unwrap();

    let encrypted = EncryptedPreimage::encrypt(&preimage, &sig_points.a_wins);

    let decrypted = encrypted.decrypt(&sig_points.b_wins);

    assert!(!payment_hash.verify(&decrypted));
}

#[test]
fn test_invalid_reveal_rejected() {
    let action = GameAction::Rps(RpsAction::Rock);
    let salt = Salt::random();
    let commit = Commitment::new(&action.to_bytes(), &salt);

    let wrong_action = GameAction::Rps(RpsAction::Paper);
    assert!(!commit.verify(&wrong_action.to_bytes(), &salt));

    let wrong_salt = Salt::random();
    assert!(!commit.verify(&action.to_bytes(), &wrong_salt));

    assert!(commit.verify(&action.to_bytes(), &salt));
}

fn oracle_with_game() -> (OracleEngine, GameId) {
    let (_, oracle_pk) = generate_keypair();
    let mut oracle = OracleEngine::new(oracle_pk);
    let info = oracle
        .create_game(GameType::RockPaperScissors, 1, 1000, 0)
        .unwrap();
    (oracle, info.game_id)
}

#[test]
fn oracle_game_lifecycle_and_winner_release() {
    let (mut oracle, game_id) = oracle_with_game();

    let (status, has_opponent) = oracle.get_game_status(&game_id).unwrap();
    assert_eq!(status, GameStatus::WaitingForOpponent);
    assert!(!has_opponent);

    let join = oracle.join_game(&game_id, 2).unwrap();
    assert_eq!(join.game_type, GameType::RockPaperScissors);
    assert_eq!(join.amount, 1000);

    let preimage_a = Preimage::random();
    let preimage_b = Preimage::random();
    let hash_a = preimage_a.payment_hash();
    let hash_b = preimage_b.payment_hash();
    oracle
        .submit_payment_hash(&game_id, Player::A, hash_a.clone(), preimage_a.clone())
        .unwrap();
    oracle
        .submit_payment_hash(&game_id, Player::B, hash_b.clone(), preimage_b.clone())
        .unwrap();
    assert_eq!(oracle.get_payment_hash(&game_id, Player::A).unwrap(), hash_a);
    assert_eq!(oracle.get_payment_hash(&game_id, Player::B).unwrap(), hash_b);

    oracle
        .submit_invoice(&game_id, Player::A, "invoice_a".to_string())
        .unwrap();
    assert_eq!(oracle.get_invoice(&game_id, Player::A).unwrap(), "invoice_a");
    assert!(matches!(
        oracle.get_invoice(&game_id, Player::B),
        Err(ProtocolError::MissingExchange)
    ));

    let action_a = GameAction::Rps(RpsAction::Rock);
    let action_b = GameAction::Rps(RpsAction::Scissors);
    let salt_a = Salt::random();
    let salt_b = Salt::random();
    let commit_a = Commitment::new(&action_a.to_bytes(), &salt_a);
    let commit_b = Commitment::new(&action_b.to_bytes(), &salt_b);
    oracle
        .submit_commitment(&game_id, Player::A, Commitment::from_bytes(commit_a.as_bytes().clone()))
        .unwrap();
    oracle
        .submit_commitment(&game_id, Player::B, Commitment::from_bytes(commit_b.as_bytes().clone()))
        .unwrap();

    let first = oracle
        .submit_reveal(
            &game_id,
            Player::A,
            action_a,
            salt_a,
            Commitment::from_bytes(commit_a.as_bytes().clone()),
            Commitment::from_bytes(commit_b.as_bytes().clone()),
        )
        .unwrap();
    assert_eq!(first, RevealOutcome::Waiting);

    let second = oracle
        .submit_reveal(
            &game_id,
            Player::B,
            action_b,
            salt_b,
            Commitment::from_bytes(commit_a.as_bytes().clone()),
            Commitment::from_bytes(commit_b.as_bytes().clone()),
        )
        .unwrap();
    assert_eq!(second, RevealOutcome::Complete);

    let result = oracle.get_result(&game_id).unwrap();
    assert!(result.completed);
    assert_eq!(result.result, Some(GameResult::AWins));
    let signature = result.signature.unwrap();
    assert_eq!(signature.len(), 64);
    assert!(signature[32..].iter().all(|b| *b == 0));
    let released = result.preimage_for_a.unwrap();
    assert_eq!(released.as_bytes(), preimage_b.as_bytes());
    assert!(result.preimage_for_b.is_none());
    let data = result.game_data.unwrap();
    assert_eq!(data.action_a, action_a);
    assert_eq!(data.action_b, action_b);
}

#[test]
fn oracle_rejects_mismatched_reveal() {
    let (mut oracle, game_id) = oracle_with_game();
    oracle.join_game(&game_id, 2).unwrap();

    let action = GameAction::Rps(RpsAction::Rock);
    let salt = Salt::random();
    let commit = Commitment::new(&action.to_bytes(), &salt);
    oracle
        .submit_commitment(&game_id, Player::B, Commitment::from_bytes(commit.as_bytes().clone()))
        .unwrap();

    let different_action = GameAction::Rps(RpsAction::Paper);
    let outcome = oracle.submit_reveal(
        &game_id,
        Player::B,
        different_action,
        Salt::from_bytes(salt.as_bytes().clone()),
        Commitment::from_bytes(commit.as_bytes().clone()),
        Commitment::from_bytes(commit.as_bytes().clone()),
    );
    assert!(matches!(outcome, Err(ProtocolError::RevealMismatch)));

    let (status, _) = oracle.get_game_status(&game_id).unwrap();
    assert_eq!(status, GameStatus::InProgress);
    assert!(!oracle.get_result(&game_id).unwrap().completed);
}

#[test]
fn oracle_rejects_mismatched_commitment_echo() {
    let (mut oracle, game_id) = oracle_with_game();
    oracle.join_game(&game_id, 2).unwrap();

    let action = GameAction::Rps(RpsAction::Rock);
    let salt = Salt::random();
    let commit = Commitment::new(&action.to_bytes(), &salt);
    oracle
        .submit_commitment(&game_id, Player::A, Commitment::from_bytes(commit.as_bytes().clone()))
        .unwrap();

    let other = Commitment::new(&b"other".to_vec(), &salt);
    let outcome = oracle.submit_reveal(
        &game_id,
        Player::A,
        action,
        Salt::from_bytes(salt.as_bytes().clone()),
        Commitment::from_bytes(other.as_bytes().clone()),
        Commitment::from_bytes(other.as_bytes().clone()),
    );
    assert!(matches!(outcome, Err(ProtocolError::CommitmentMismatch)));
}

#[test]
fn oracle_rejects_reveal_on_completed_game() {
    let (mut oracle, game_id) = oracle_with_game();
    oracle.join_game(&game_id, 2).unwrap();

    let action_a = GameAction::Rps(RpsAction::Rock);
    let action_b = GameAction::Rps(RpsAction::Rock);
    let salt_a = Salt::random();
    let salt_b = Salt::random();
    let commit_a = Commitment::new(&action_a.to_bytes(), &salt_a);
    let commit_b = Commitment::new(&action_b.to_bytes(), &salt_b);
    oracle
        .submit_commitment(&game_id, Player::A, Commitment::from_bytes(commit_a.as_bytes().clone()))
        .unwrap();
    oracle
        .submit_commitment(&game_id, Player::B, Commitment::from_bytes(commit_b.as_bytes().clone()))
        .unwrap();
    oracle
        .submit_reveal(
            &game_id,
            Player::A,
            action_a,
            salt_a,
            Commitment::from_bytes(commit_a.as_bytes().clone()),
            Commitment::from_bytes(commit_b.as_bytes().clone()),
        )
        .unwrap();
    oracle
        .submit_reveal(
            &game_id,
            Player::B,
            action_b,
            salt_b,
            Commitment::from_bytes(commit_a.as_bytes().clone()),
            Commitment::from_bytes(commit_b.as_bytes().clone()),
        )
        .unwrap();

    let again = oracle.submit_reveal(
        &game_id,
        Player::A,
        GameAction::Rps(RpsAction::Paper),
        Salt::random(),
        Commitment::from_bytes(commit_a.as_bytes().clone()),
        Commitment::from_bytes(commit_b.as_bytes().clone()),
    );
    assert!(matches!(again, Err(ProtocolError::WrongPhase)));
}

#[test]
fn test_player_a_sees_opponent_joined() {
    let (_, oracle_pk) = generate_keypair();
    let (_, nonce_point) = generate_keypair();
    let mut session = PlayerSession::create(
        GameId::new(),
        GameType::RockPaperScissors,
        1000,
        oracle_pk,
        nonce_point,
    );
    assert_eq!(session.phase, PlayerGamePhase::WaitingForOpponent);

    let opponent = Preimage::random().payment_hash();
    session.on_opponent_joined(opponent.clone()).unwrap();

    assert_eq!(session.phase, PlayerGamePhase::ExchangingInvoices);
    assert_eq!(session.opponent_payment_hash.as_ref().unwrap(), &opponent);
}

#[test]
fn player_sessions_settle_conservatively() {
    let (_, oracle_pk) = generate_keypair();
    let (_, nonce_point) = generate_keypair();
    let mut fiber_a = MockFiberClient::new(10_000);
    let mut fiber_b = MockFiberClient::new(10_000);

    let mut a = PlayerSession::create(
        GameId::new(),
        GameType::RockPaperScissors,
        1000,
        oracle_pk.clone(),
        nonce_point.clone(),
    );
    let game_id = a.game_id;
    let mut b = PlayerSession::join(
        game_id,
        GameType::RockPaperScissors,
        1000,
        oracle_pk,
        nonce_point,
        a.payment_hash.clone(),
    );
    a.on_opponent_joined(b.payment_hash.clone()).unwrap();

    // Each player creates their own invoice against the opponent's
    // hash: the hold-invoice asymmetry.
    let (hash_for_a, amount_a) = a.invoice_request().unwrap();
    assert_eq!(&hash_for_a, &b.payment_hash);
    let invoice_a = fiber_a.create_hold_invoice(&hash_for_a, amount_a, 3600).unwrap();
    let invoice_a_string = invoice_a.invoice_string.clone();
    a.on_my_invoice(invoice_a).unwrap();

    let (hash_for_b, amount_b) = b.invoice_request().unwrap();
    assert_eq!(&hash_for_b, &a.payment_hash);
    let invoice_b = fiber_b.create_hold_invoice(&hash_for_b, amount_b, 3600).unwrap();
    let invoice_b_string = invoice_b.invoice_string.clone();
    b.on_my_invoice(invoice_b).unwrap();

    // Each player pays the opponent's invoice, which is bound to their
    // own hash; the stake is locked on both sides.
    let a_pays = a.opponent_invoice_to_pay(invoice_b_string, 3600);
    fiber_a.pay_hold_invoice(&a_pays).unwrap();
    a.on_paid_opponent(a_pays).unwrap();

    let b_pays = b.opponent_invoice_to_pay(invoice_a_string, 3600);
    fiber_b.pay_hold_invoice(&b_pays).unwrap();
    b.on_paid_opponent(b_pays).unwrap();
    assert_eq!(fiber_a.balance(), 9_000);
    assert_eq!(fiber_b.balance(), 9_000);

    let _commit_a = a.commit_action(GameAction::Rps(RpsAction::Rock)).unwrap();
    let _commit_b = b.commit_action(GameAction::Rps(RpsAction::Scissors)).unwrap();
    a.on_reveal_ack(false).unwrap();
    b.on_reveal_ack(true).unwrap();

    let b_preimage_copy = Preimage::from_bytes(b.preimage.as_bytes().clone());
    a.on_result(
        GameResult::AWins,
        Some(GameAction::Rps(RpsAction::Scissors)),
        Some(b_preimage_copy),
    )
    .unwrap();
    b.on_result(GameResult::AWins, Some(GameAction::Rps(RpsAction::Rock)), None)
        .unwrap();

    // The winner settles their own invoice with the released preimage;
    // the loser's only move is to cancel, refunding the opponent.
    match a.settle_action().unwrap() {
        SettleAction::Settle(hash, preimage) => {
            assert_eq!(&hash, &b.payment_hash);
            assert_eq!(preimage.as_bytes(), b.preimage.as_bytes());
        }
        _ => panic!("winner must settle"),
    }
    match b.settle_action().unwrap() {
        SettleAction::CancelOwn(hash) => {
            assert_eq!(&hash, &a.payment_hash);
        }
        _ => panic!("loser must cancel"),
    }

    assert_eq!(a.amount_won(), 1000);
    assert_eq!(b.amount_won(), -1000);

    a.mark_settled().unwrap();
    assert!(matches!(a.mark_settled(), Err(ProtocolError::WrongPhase)));
}
