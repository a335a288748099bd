//! Game rules: the pure judges for Rock-Paper-Scissors and
//! Guess-the-Number, and the oracle's committed secret for the latter.

use vstd::prelude::*;

use crate::bytes::clone_bytes;
use crate::hashing::{sha256, sha256_of};
use crate::protocol::GameResult;

verus! {

/// The kind of game being played.
#[derive(Clone, Copy, Debug, PartialEq, Eq, Structural)]
pub enum GameType {
    RockPaperScissors,
    GuessNumber,
}

impl GameType {
    /// Whether the oracle must commit to a secret before this game starts.
    pub fn requires_oracle_secret(&self) -> (r: bool)
        ensures
            r == spec_type_needs_secret(*self),
    {
        match self {
            GameType::RockPaperScissors => false,
            GameType::GuessNumber => true,
        }
    }
}

/// Whether a game type needs an oracle secret.
pub open spec fn spec_type_needs_secret(t: GameType) -> bool {
    match t {
        GameType::RockPaperScissors => false,
        GameType::GuessNumber => true,
    }
}

/// A Rock-Paper-Scissors move.
#[derive(Clone, Copy, Debug, PartialEq, Eq, Structural)]
pub enum RpsAction {
    Rock,
    Paper,
    Scissors,
}

/// Whether `a` beats `b` in Rock-Paper-Scissors.
pub open spec fn spec_rps_beats(a: RpsAction, b: RpsAction) -> bool {
    ||| (a == RpsAction::Rock && b == RpsAction::Scissors)
    ||| (a == RpsAction::Scissors && b == RpsAction::Paper)
    ||| (a == RpsAction::Paper && b == RpsAction::Rock)
}

/// The ASCII bytes of a move's name, as they enter commitments:
/// `Rock`, `Paper` or `Scissors`.
pub open spec fn spec_rps_bytes(a: RpsAction) -> Seq<u8> {
    match a {
        RpsAction::Rock => seq![0x52u8, 0x6fu8, 0x63u8, 0x6bu8],
        RpsAction::Paper => seq![0x50u8, 0x61u8, 0x70u8, 0x65u8, 0x72u8],
        RpsAction::Scissors => seq![
            0x53u8, 0x63u8, 0x69u8, 0x73u8, 0x73u8, 0x6fu8, 0x72u8, 0x73u8,
        ],
    }
}

impl RpsAction {
    /// The ASCII bytes of the move's name, for commitments.
    pub fn to_bytes(&self) -> (r: Vec<u8>)
        ensures
            r@ == spec_rps_bytes(*self),
    {
        let mut r: Vec<u8> = Vec::new();
        match self {
            RpsAction::Rock => {
                r.push(0x52u8);
                r.push(0x6fu8);
                r.push(0x63u8);
                r.push(0x6bu8);
            },
            RpsAction::Paper => {
                r.push(0x50u8);
                r.push(0x61u8);
                r.push(0x70u8);
                r.push(0x65u8);
                r.push(0x72u8);
            },
            RpsAction::Scissors => {
                r.push(0x53u8);
                r.push(0x63u8);
                r.push(0x69u8);
                r.push(0x73u8);
                r.push(0x73u8);
                r.push(0x6fu8);
                r.push(0x72u8);
                r.push(0x73u8);
            },
        }
        proof {
            assert(r@ =~= spec_rps_bytes(*self));
        }
        r
    }

    /// Whether this move beats the other.
    pub fn beats(&self, other: &RpsAction) -> (r: bool)
        ensures
            r == spec_rps_beats(*self, *other),
    {
        matches!(
            (self, other),
            (RpsAction::Rock, RpsAction::Scissors)
                | (RpsAction::Scissors, RpsAction::Paper)
                | (RpsAction::Paper, RpsAction::Rock)
        )
    }
}

/// A move in either game: a Rock-Paper-Scissors action, or a guess
/// in `0..100`.
#[derive(Clone, Copy, Debug, PartialEq, Eq, Structural)]
pub enum GameAction {
    Rps(RpsAction),
    GuessNumber(u8),
}

/// The bytes of an action, as they enter commitments.
pub open spec fn spec_action_bytes(a: GameAction) -> Seq<u8> {
    match a {
        GameAction::Rps(m) => spec_rps_bytes(m),
        GameAction::GuessNumber(n) => seq![n],
    }
}

/// Whether an action is legal for a game type.
pub open spec fn spec_action_valid(a: GameAction, t: GameType) -> bool {
    match (a, t) {
        (GameAction::Rps(_), GameType::RockPaperScissors) => true,
        (GameAction::GuessNumber(n), GameType::GuessNumber) => n < 100,
        _ => false,
    }
}

impl GameAction {
    /// The bytes of the action, for commitments.
    pub fn to_bytes(&self) -> (r: Vec<u8>)
        ensures
            r@ == spec_action_bytes(*self),
    {
        match self {
            GameAction::Rps(m) => m.to_bytes(),
            GameAction::GuessNumber(n) => {
                let mut r: Vec<u8> = Vec::new();
                r.push(*n);
                proof {
                    assert(r@ =~= spec_action_bytes(*self));
                }
                r
            },
        }
    }

    /// Whether the action is legal for the given game type.
    pub fn validate(&self, game_type: GameType) -> (r: bool)
        ensures
            r == spec_action_valid(*self, game_type),
    {
        match (self, game_type) {
            (GameAction::Rps(_), GameType::RockPaperScissors) => true,
            (GameAction::GuessNumber(n), GameType::GuessNumber) => *n < 100,
            _ => false,
        }
    }
}

/// The oracle's secret for Guess-the-Number: a value in `0..100` and a
/// 32-byte nonce, committed to as `SHA-256(value || nonce)`.
#[derive(Debug)]
pub struct OracleSecret {
    /// The secret number, in `0..100`.
    pub secret_number: u8,
    /// The random nonce of the commitment.
    pub nonce: Vec<u8>,
}

/// The commitment value of an oracle secret.
pub open spec fn spec_secret_commitment(value: u8, nonce: Seq<u8>) -> Seq<u8> {
    sha256_of(seq![value] + nonce)
}

impl OracleSecret {
    /// Draws a random secret in `0..100` with a fresh 32-byte nonce.
    pub fn random() -> (r: Self)
        ensures
            r.secret_number < 100,
            r.nonce@.len() == 32,
    {
        let bytes = crate::payment::random_bytes(1);
        OracleSecret {
            secret_number: bytes[0] % 100,
            nonce: crate::payment::random_bytes(32),
        }
    }

    /// Builds a secret with a chosen number and a fresh nonce.
    pub fn with_number(secret_number: u8) -> (r: Self)
        requires
            secret_number < 100,
        ensures
            r.secret_number == secret_number,
            r.nonce@.len() == 32,
    {
        OracleSecret { secret_number, nonce: crate::payment::random_bytes(32) }
    }

    /// Computes the commitment `SHA-256(value || nonce)`.
    pub fn commitment(&self) -> (r: Vec<u8>)
        ensures
            r@ == spec_secret_commitment(self.secret_number, self.nonce@),
            r@.len() == 32,
    {
        let mut joined: Vec<u8> = Vec::new();
        joined.push(self.secret_number);
        let mut i: usize = 0;
        while i < self.nonce.len()
            invariant
                i <= self.nonce@.len(),
                joined@ == seq![self.secret_number] + self.nonce@.subrange(0, i as int),
            decreases self.nonce@.len() - i,
        {
            joined.push(self.nonce[i]);
            proof {
                assert(joined@ =~= seq![self.secret_number] + self.nonce@.subrange(0, i + 1));
            }
            i = i + 1;
        }
        proof {
            assert(joined@ =~= seq![self.secret_number] + self.nonce@);
        }
        sha256(&joined)
    }

    /// Returns whether this secret matches a published commitment.
    pub fn verify_commitment(&self, commitment: &Vec<u8>) -> (r: bool)
        ensures
            r == (commitment@ == spec_secret_commitment(self.secret_number, self.nonce@)),
    {
        let computed = self.commitment();
        crate::bytes::bytes_eq(commitment, &computed)
    }
}

impl Clone for OracleSecret {
    /// Copies the secret value and nonce.
    fn clone(&self) -> (r: Self)
        ensures
            r.secret_number == self.secret_number,
            r.nonce@ == self.nonce@,
    {
        OracleSecret { secret_number: self.secret_number, nonce: clone_bytes(&self.nonce) }
    }
}

/// The opposite outcome, with the players swapped.
pub open spec fn spec_swap_result(r: GameResult) -> GameResult {
    match r {
        GameResult::AWins => GameResult::BWins,
        GameResult::BWins => GameResult::AWins,
        GameResult::Draw => GameResult::Draw,
    }
}

/// The Rock-Paper-Scissors judge: equal moves draw, otherwise the move
/// that beats the other wins.
pub open spec fn spec_rps_judge(a: RpsAction, b: RpsAction) -> GameResult {
    if a == b {
        GameResult::Draw
    } else if spec_rps_beats(a, b) {
        GameResult::AWins
    } else {
        GameResult::BWins
    }
}

/// The distance of a guess from the secret.
pub open spec fn spec_guess_dist(guess: u8, secret: u8) -> int {
    if guess >= secret {
        guess - secret
    } else {
        secret - guess
    }
}

/// The Guess-the-Number judge: the closer guess wins, equal distances
/// draw.
pub open spec fn spec_guess_judge(a: u8, b: u8, secret: u8) -> GameResult {
    if spec_guess_dist(a, secret) < spec_guess_dist(b, secret) {
        GameResult::AWins
    } else if spec_guess_dist(b, secret) < spec_guess_dist(a, secret) {
        GameResult::BWins
    } else {
        GameResult::Draw
    }
}

/// A game judge: a pure, total decision rule on validated actions.
pub trait GameJudge {
    /// Which actions this judge accepts.
    spec fn spec_action_ok(a: GameAction) -> bool;

    /// Whether this judge needs the oracle's secret.
    spec fn spec_needs_secret() -> bool;

    /// The judged outcome, as a function of the two actions and, where
    /// needed, of the oracle's secret number.
    spec fn spec_judge(a: GameAction, b: GameAction, secret: Option<u8>) -> GameResult;

    /// Judges the game.
    fn judge(action_a: &GameAction, action_b: &GameAction, oracle_secret: Option<&OracleSecret>) -> (r:
        GameResult)
        requires
            Self::spec_action_ok(*action_a),
            Self::spec_action_ok(*action_b),
            Self::spec_needs_secret() ==> oracle_secret is Some,
        ensures
            r == Self::spec_judge(
                *action_a,
                *action_b,
                match oracle_secret {
                    Some(s) => Some(s.secret_number),
                    None => None,
                },
            ),
    ;

    /// Returns whether the action is legal for this game.
    fn validate_action(action: &GameAction) -> (r: bool)
        ensures
            r == Self::spec_action_ok(*action),
    ;

    /// Returns whether this game needs a committed oracle secret.
    fn requires_oracle_secret() -> (r: bool)
        ensures
            r == Self::spec_needs_secret(),
    ;
}

/// The Rock-Paper-Scissors game.
pub struct RpsGame;

impl GameJudge for RpsGame {
    open spec fn spec_action_ok(a: GameAction) -> bool {
        a is Rps
    }

    open spec fn spec_needs_secret() -> bool {
        false
    }

    open spec fn spec_judge(a: GameAction, b: GameAction, secret: Option<u8>) -> GameResult {
        spec_rps_judge(a->Rps_0, b->Rps_0)
    }

    fn judge(action_a: &GameAction, action_b: &GameAction, oracle_secret: Option<&OracleSecret>) -> (r:
        GameResult) {
        let (rps_a, rps_b) = match (action_a, action_b) {
            (GameAction::Rps(a), GameAction::Rps(b)) => (*a, *b),
            _ => unreached(),
        };
        if rps_a == rps_b {
            GameResult::Draw
        } else if rps_a.beats(&rps_b) {
            GameResult::AWins
        } else {
            GameResult::BWins
        }
    }

    fn validate_action(action: &GameAction) -> (r: bool) {
        matches!(action, GameAction::Rps(_))
    }

    fn requires_oracle_secret() -> (r: bool) {
        false
    }
}

/// The Guess-the-Number game.
pub struct GuessNumberGame;

impl GameJudge for GuessNumberGame {
    open spec fn spec_action_ok(a: GameAction) -> bool {
        a matches GameAction::GuessNumber(n) && n < 100
    }

    open spec fn spec_needs_secret() -> bool {
        true
    }

    open spec fn spec_judge(a: GameAction, b: GameAction, secret: Option<u8>) -> GameResult {
        spec_guess_judge(a->GuessNumber_0, b->GuessNumber_0, secret.unwrap())
    }

    fn judge(action_a: &GameAction, action_b: &GameAction, oracle_secret: Option<&OracleSecret>) -> (r:
        GameResult) {
        let (guess_a, guess_b) = match (action_a, action_b) {
            (GameAction::GuessNumber(a), GameAction::GuessNumber(b)) => (*a, *b),
            _ => unreached(),
        };
        let secret = match oracle_secret {
            Some(s) => s.secret_number,
            None => unreached(),
        };
        let distance_a = guess_distance(guess_a, secret);
        let distance_b = guess_distance(guess_b, secret);
        if distance_a < distance_b {
            GameResult::AWins
        } else if distance_b < distance_a {
            GameResult::BWins
        } else {
            GameResult::Draw
        }
    }

    fn validate_action(action: &GameAction) -> (r: bool) {
        match action {
            GameAction::GuessNumber(n) => *n < 100,
            _ => false,
        }
    }

    fn requires_oracle_secret() -> (r: bool) {
        true
    }
}

/// Computes the distance of a guess from the secret.
fn guess_distance(guess: u8, secret: u8) -> (r: u8)
    ensures
        r == spec_guess_dist(guess, secret),
{
    if guess > secret {
        guess - secret
    } else {
        secret - guess
    }
}

/// Judge totality and symmetry for Rock-Paper-Scissors: every pair of
/// moves has a defined outcome, and swapping the moves swaps the winner.
pub proof fn lemma_rps_judge_symmetric(a: RpsAction, b: RpsAction)
    ensures
        spec_rps_judge(b, a) == spec_swap_result(spec_rps_judge(a, b)),
{
}

/// Judge totality and symmetry for Guess-the-Number: every pair of
/// guesses has a defined outcome, and swapping the guesses swaps the
/// winner.
pub proof fn lemma_guess_judge_symmetric(a: u8, b: u8, secret: u8)
    ensures
        spec_guess_judge(b, a, secret) == spec_swap_result(spec_guess_judge(a, b, secret)),
{
}

} // verus!
