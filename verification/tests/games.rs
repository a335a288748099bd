//! Tests for the game rules: the two judges, action validation, and
//! the oracle's committed secret.

use fiber_protocol::games::{
    GameAction, GameJudge, GameType, GuessNumberGame, OracleSecret, RpsAction, RpsGame,
};
use fiber_protocol::protocol::{GameId, GameResult, Player};

fn judge_rps(a: RpsAction, b: RpsAction) -> GameResult {
    RpsGame::judge(&GameAction::Rps(a), &GameAction::Rps(b), None)
}

fn judge_guess(a: u8, b: u8, secret: u8) -> GameResult {
    let oracle_secret = OracleSecret::with_number(secret);
    GuessNumberGame::judge(
        &GameAction::GuessNumber(a),
        &GameAction::GuessNumber(b),
        Some(&oracle_secret),
    )
}

#[test]
fn test_rps_rock_beats_scissors() {
    assert_eq!(judge_rps(RpsAction::Rock, RpsAction::Scissors), GameResult::AWins);
    assert_eq!(judge_rps(RpsAction::Scissors, RpsAction::Rock), GameResult::BWins);
}

#[test]
fn test_rps_scissors_beats_paper() {
    assert_eq!(judge_rps(RpsAction::Scissors, RpsAction::Paper), GameResult::AWins);
    assert_eq!(judge_rps(RpsAction::Paper, RpsAction::Scissors), GameResult::BWins);
}

#[test]
fn test_rps_paper_beats_rock() {
    assert_eq!(judge_rps(RpsAction::Paper, RpsAction::Rock), GameResult::AWins);
    assert_eq!(judge_rps(RpsAction::Rock, RpsAction::Paper), GameResult::BWins);
}

#[test]
fn test_rps_draws() {
    assert_eq!(judge_rps(RpsAction::Rock, RpsAction::Rock), GameResult::Draw);
    assert_eq!(judge_rps(RpsAction::Paper, RpsAction::Paper), GameResult::Draw);
    assert_eq!(judge_rps(RpsAction::Scissors, RpsAction::Scissors), GameResult::Draw);
}

#[test]
fn test_rps_all_outcomes() {
    let actions = [RpsAction::Rock, RpsAction::Paper, RpsAction::Scissors];
    let mut a_wins = 0;
    let mut b_wins = 0;
    let mut draws = 0;

    for a in &actions {
        for b in &actions {
            match judge_rps(*a, *b) {
                GameResult::AWins => a_wins += 1,
                GameResult::BWins => b_wins += 1,
                GameResult::Draw => draws += 1,
            }
        }
    }

    assert_eq!(a_wins, 3);
    assert_eq!(b_wins, 3);
    assert_eq!(draws, 3);
}

#[test]
fn test_rps_validate_action() {
    assert!(RpsGame::validate_action(&GameAction::Rps(RpsAction::Rock)));
    assert!(RpsGame::validate_action(&GameAction::Rps(RpsAction::Paper)));
    assert!(RpsGame::validate_action(&GameAction::Rps(RpsAction::Scissors)));
    assert!(!RpsGame::validate_action(&GameAction::GuessNumber(50)));
}

#[test]
fn test_rps_no_oracle_secret() {
    assert!(!RpsGame::requires_oracle_secret());
}

#[test]
fn test_guess_number_closer_wins() {
    assert_eq!(judge_guess(48, 55, 50), GameResult::AWins);
}

#[test]
fn guess_number_test_guess_number_b_wins() {
    assert_eq!(judge_guess(30, 45, 50), GameResult::BWins);
}

#[test]
fn test_guess_number_tie() {
    assert_eq!(judge_guess(45, 55, 50), GameResult::Draw);
}

#[test]
fn test_guess_number_exact_guess() {
    assert_eq!(judge_guess(50, 51, 50), GameResult::AWins);
}

#[test]
fn test_guess_number_both_exact() {
    assert_eq!(judge_guess(50, 50, 50), GameResult::Draw);
}

#[test]
fn test_guess_number_edge_cases() {
    assert_eq!(judge_guess(0, 1, 0), GameResult::AWins);
    assert_eq!(judge_guess(5, 3, 0), GameResult::BWins);

    assert_eq!(judge_guess(99, 98, 99), GameResult::AWins);
    assert_eq!(judge_guess(90, 95, 99), GameResult::BWins);
}

#[test]
fn test_oracle_secret_commitment_verification() {
    let secret = OracleSecret::random();
    let commitment = secret.commitment();

    assert!(secret.verify_commitment(&commitment));
}

#[test]
fn test_oracle_secret_wrong_commitment_fails() {
    let secret1 = OracleSecret::random();
    let secret2 = OracleSecret::random();

    let commitment1 = secret1.commitment();

    assert!(!secret2.verify_commitment(&commitment1));
}

#[test]
fn test_guess_number_validate_action() {
    assert!(GuessNumberGame::validate_action(&GameAction::GuessNumber(0)));
    assert!(GuessNumberGame::validate_action(&GameAction::GuessNumber(50)));
    assert!(GuessNumberGame::validate_action(&GameAction::GuessNumber(99)));
    assert!(!GuessNumberGame::validate_action(&GameAction::GuessNumber(100)));
    assert!(!GuessNumberGame::validate_action(&GameAction::Rps(RpsAction::Rock)));
}

#[test]
fn test_guess_number_requires_oracle_secret() {
    assert!(GuessNumberGame::requires_oracle_secret());
}

#[test]
fn game_type_oracle_secret_requirements() {
    assert!(!GameType::RockPaperScissors.requires_oracle_secret());
    assert!(GameType::GuessNumber.requires_oracle_secret());
}

#[test]
fn action_byte_encodings() {
    assert_eq!(GameAction::Rps(RpsAction::Rock).to_bytes(), b"Rock".to_vec());
    assert_eq!(GameAction::Rps(RpsAction::Paper).to_bytes(), b"Paper".to_vec());
    assert_eq!(GameAction::Rps(RpsAction::Scissors).to_bytes(), b"Scissors".to_vec());
    assert_eq!(GameAction::GuessNumber(42).to_bytes(), vec![42u8]);
}

#[test]
fn action_validation_by_game_type() {
    assert!(GameAction::Rps(RpsAction::Rock).validate(GameType::RockPaperScissors));
    assert!(!GameAction::Rps(RpsAction::Rock).validate(GameType::GuessNumber));
    assert!(GameAction::GuessNumber(99).validate(GameType::GuessNumber));
    assert!(!GameAction::GuessNumber(100).validate(GameType::GuessNumber));
    assert!(!GameAction::GuessNumber(1).validate(GameType::RockPaperScissors));
}

#[test]
fn test_game_id_generation() {
    let id1 = GameId::new();
    let id2 = GameId::new();
    assert_ne!(id1, id2);
}

#[test]
fn test_player_opponent() {
    assert_eq!(Player::A.opponent(), Player::B);
    assert_eq!(Player::B.opponent(), Player::A);
}

#[test]
fn test_game_result_str() {
    assert_eq!(GameResult::AWins.as_str(), "A wins");
    assert_eq!(GameResult::BWins.as_str(), "B wins");
    assert_eq!(GameResult::Draw.as_str(), "Draw");
}
