//! Core protocol types: game identifiers, players, results, and the
//! messages the parties exchange.

use vstd::prelude::*;

use crate::commitment::{Commitment, Salt};
use crate::payment::PaymentHash;

verus! {

/// Relies on uuid::Uuid::new_v4: a freshly drawn random 128-bit
/// identifier. Nothing is promised of the value.
#[verifier::external_body]
pub fn fresh_uuid_u128() -> u128 {
    uuid::Uuid::new_v4().as_u128()
}

/// A unique game identifier: the 128 bits of a random UUID.
#[derive(Clone, Copy, Debug, PartialEq, Eq, Structural, Hash)]
pub struct GameId {
    pub value: u128,
}

/// The big-endian bytes of a 128-bit value.
pub open spec fn spec_u128_be_bytes(v: u128) -> Seq<u8> {
    Seq::new(16, |i: int| (v >> (((15 - i) * 8) as u128)) as u8)
}

impl GameId {
    /// Draws a fresh random game identifier.
    pub fn new() -> Self {
        GameId { value: fresh_uuid_u128() }
    }

    /// Wraps a 128-bit value as a game identifier.
    pub fn from_u128(value: u128) -> (r: Self)
        ensures
            r.value == value,
    {
        GameId { value }
    }

    /// The identifier as a 128-bit value.
    pub fn as_u128(&self) -> (r: u128)
        ensures
            r == self.value,
    {
        self.value
    }

    /// The 16 raw big-endian bytes, as they enter hash computations.
    pub fn as_bytes(&self) -> (r: Vec<u8>)
        ensures
            r@ == spec_u128_be_bytes(self.value),
    {
        let v = self.value;
        let mut r: Vec<u8> = Vec::new();
        r.push((v >> 120u128) as u8);
        r.push((v >> 112u128) as u8);
        r.push((v >> 104u128) as u8);
        r.push((v >> 96u128) as u8);
        r.push((v >> 88u128) as u8);
        r.push((v >> 80u128) as u8);
        r.push((v >> 72u128) as u8);
        r.push((v >> 64u128) as u8);
        r.push((v >> 56u128) as u8);
        r.push((v >> 48u128) as u8);
        r.push((v >> 40u128) as u8);
        r.push((v >> 32u128) as u8);
        r.push((v >> 24u128) as u8);
        r.push((v >> 16u128) as u8);
        r.push((v >> 8u128) as u8);
        r.push((v >> 0u128) as u8);
        proof {
            assert(r@ =~= spec_u128_be_bytes(v));
        }
        r
    }
}

/// The outcome of a game.
#[derive(Clone, Copy, Debug, PartialEq, Eq, Structural)]
pub enum GameResult {
    AWins,
    BWins,
    Draw,
}

/// The ASCII bytes of a result's label, as they enter the adaptor-point
/// and signature computations: `A wins`, `B wins` or `Draw`.
pub open spec fn spec_result_label_bytes(r: GameResult) -> Seq<u8> {
    match r {
        GameResult::AWins => seq![0x41u8, 0x20u8, 0x77u8, 0x69u8, 0x6eu8, 0x73u8],
        GameResult::BWins => seq![0x42u8, 0x20u8, 0x77u8, 0x69u8, 0x6eu8, 0x73u8],
        GameResult::Draw => seq![0x44u8, 0x72u8, 0x61u8, 0x77u8],
    }
}

impl GameResult {
    /// The label of the result.
    pub fn as_str(&self) -> (r: &'static str)
        ensures
            r@ == spec_result_label_chars(*self),
    {
        proof {
            reveal_strlit("A wins");
            reveal_strlit("B wins");
            reveal_strlit("Draw");
        }
        match self {
            GameResult::AWins => "A wins",
            GameResult::BWins => "B wins",
            GameResult::Draw => "Draw",
        }
    }

    /// The ASCII bytes of the label.
    pub fn label_bytes(&self) -> (r: Vec<u8>)
        ensures
            r@ == spec_result_label_bytes(*self),
    {
        let mut r: Vec<u8> = Vec::new();
        match self {
            GameResult::AWins => {
                r.push(0x41u8);
                r.push(0x20u8);
                r.push(0x77u8);
                r.push(0x69u8);
                r.push(0x6eu8);
                r.push(0x73u8);
            },
            GameResult::BWins => {
                r.push(0x42u8);
                r.push(0x20u8);
                r.push(0x77u8);
                r.push(0x69u8);
                r.push(0x6eu8);
                r.push(0x73u8);
            },
            GameResult::Draw => {
                r.push(0x44u8);
                r.push(0x72u8);
                r.push(0x61u8);
                r.push(0x77u8);
            },
        }
        proof {
            assert(r@ =~= spec_result_label_bytes(*self));
        }
        r
    }
}

/// The characters of a result's label.
pub open spec fn spec_result_label_chars(r: GameResult) -> Seq<char> {
    match r {
        GameResult::AWins => "A wins"@,
        GameResult::BWins => "B wins"@,
        GameResult::Draw => "Draw"@,
    }
}

/// One of the two players of a game.
#[derive(Clone, Copy, Debug, PartialEq, Eq, Structural)]
pub enum Player {
    A,
    B,
}

impl Player {
    /// The other player.
    pub fn opponent(&self) -> (r: Player)
        ensures
            r == spec_opponent(*self),
    {
        match self {
            Player::A => Player::B,
            Player::B => Player::A,
        }
    }
}

/// The other player.
pub open spec fn spec_opponent(p: Player) -> Player {
    match p {
        Player::A => Player::B,
        Player::B => Player::A,
    }
}

/// The cryptographic parameters of a game session, as the oracle
/// announces them: its long-term public key, its per-game nonce point,
/// and the commitment to its secret where the game needs one.
pub struct GameSession {
    /// The game identifier.
    pub game_id: GameId,
    /// The oracle's long-term public key, compressed (33 bytes).
    pub oracle_pubkey: Vec<u8>,
    /// The oracle's per-game nonce point `R`, compressed (33 bytes).
    pub oracle_commitment_point: Vec<u8>,
    /// The commitment to the oracle's secret, for games that need one.
    pub oracle_commitment: Option<Vec<u8>>,
}

/// A hold invoice announcement exchanged between the players.
pub struct HoldInvoiceMessage {
    pub payment_hash: PaymentHash,
    pub amount: u64,
    pub expiry_secs: u64,
}

/// A commitment message to the oracle.
pub struct CommitMessage {
    pub game_id: GameId,
    pub player: Player,
    pub commitment: Commitment,
}

/// A reveal message to the oracle: the action, its salt, and an echo of
/// both stored commitments.
pub struct RevealMessage {
    pub game_id: GameId,
    pub player: Player,
    pub action: crate::games::GameAction,
    pub salt: Salt,
    pub commit_a: Commitment,
    pub commit_b: Commitment,
}

/// An encrypted-preimage exchange message.
pub struct EncryptedPreimageExchange {
    pub game_id: GameId,
    pub player: Player,
    pub encrypted_preimage: crate::adaptor::EncryptedPreimage,
}

/// The oracle's secret for a completed game, published for
/// verification.
#[derive(Debug)]
pub struct OracleSecretData {
    /// The secret number.
    pub secret_number: u8,
    /// The commitment nonce.
    pub nonce: Vec<u8>,
}

/// The oracle's signed result, as the players receive it.
pub struct OracleResultMessage {
    pub game_id: GameId,
    pub game_type: crate::games::GameType,
    pub result: GameResult,
    /// The 64-byte signature over the result.
    pub signature: Vec<u8>,
}

} // verus!
