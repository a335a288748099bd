//! The oracle's game-session engine.
//!
//! The oracle owns a long-term keypair, mints a per-game nonce keypair,
//! mediates the exchange of payment hashes and invoice strings, accepts
//! and verifies commit-reveal, judges the outcome, signs it, and
//! releases the losing player's preimage only to the winner.

use rand::Rng;
use vstd::prelude::*;

use crate::adaptor::EncryptedPreimage;
use crate::bytes::clone_bytes;
use crate::commitment::{spec_commitment, Commitment, Salt};
use crate::errors::ProtocolError;
use crate::games::{
    spec_action_bytes, spec_action_valid, spec_guess_judge, spec_rps_judge, spec_type_needs_secret,
    GameAction, GameJudge, GameType, GuessNumberGame, OracleSecret, RpsGame,
};
use crate::hashing::{sha256, sha256_of};
use crate::payment::{PaymentHash, Preimage};
use crate::protocol::{
    spec_result_label_bytes, spec_u128_be_bytes, GameId, GameResult, Player,
};

verus! {

/// The lifecycle status of an oracle-side game session.
#[derive(Clone, Copy, Debug, PartialEq, Eq, Structural)]
pub enum GameStatus {
    /// Created; waiting for a second player.
    WaitingForOpponent,
    /// Both players present; the protocol is running.
    InProgress,
    /// Both reveals judged; result and signature recorded.
    Completed,
    /// Abandoned.
    Cancelled,
}

/// A revealed action together with its salt.
#[derive(Debug)]
pub struct RevealData {
    /// The revealed action.
    pub action: GameAction,
    /// The salt the commitment was computed with.
    pub salt: Salt,
}

/// One game session as the oracle holds it.
#[derive(Debug)]
pub struct OracleGame {
    /// The game identifier.
    pub game_id: GameId,
    /// The kind of game.
    pub game_type: GameType,
    /// The stake in shannons.
    pub amount: u64,
    /// The lifecycle status.
    pub status: GameStatus,
    /// The per-game nonce point `R`, compressed.
    pub commitment_point: Vec<u8>,
    /// The oracle's secret, for games that need one.
    pub oracle_secret: Option<OracleSecret>,
    /// The published commitment to the secret.
    pub oracle_commitment: Option<Vec<u8>>,
    /// The first player's identifier.
    pub player_a_id: u128,
    /// The second player's identifier, once joined.
    pub player_b_id: Option<u128>,
    /// Player A's payment hash.
    pub payment_hash_a: Option<PaymentHash>,
    /// Player B's payment hash.
    pub payment_hash_b: Option<PaymentHash>,
    /// Player A's preimage, escrowed for winner release.
    pub preimage_a: Option<Preimage>,
    /// Player B's preimage, escrowed for winner release.
    pub preimage_b: Option<Preimage>,
    /// Player A's invoice string.
    pub invoice_a: Option<String>,
    /// Player B's invoice string.
    pub invoice_b: Option<String>,
    /// Player A's encrypted preimage.
    pub encrypted_preimage_a: Option<EncryptedPreimage>,
    /// Player B's encrypted preimage.
    pub encrypted_preimage_b: Option<EncryptedPreimage>,
    /// Player A's commitment.
    pub commit_a: Option<Commitment>,
    /// Player B's commitment.
    pub commit_b: Option<Commitment>,
    /// Player A's reveal.
    pub reveal_a: Option<RevealData>,
    /// Player B's reveal.
    pub reveal_b: Option<RevealData>,
    /// The judged result, once completed.
    pub result: Option<GameResult>,
    /// The 64-byte signature over the result, once completed.
    pub signature: Option<Vec<u8>>,
    /// When the session was created, in seconds.
    pub created_at: u64,
}

/// Whether the store holds a game with identifier `id`.
pub open spec fn spec_contains_game(s: Seq<OracleGame>, id: u128) -> bool {
    exists|i: int| 0 <= i < s.len() && s[i].game_id.value == id
}

/// The index of the game with identifier `id`.
pub open spec fn spec_game_idx(s: Seq<OracleGame>, id: u128) -> int {
    choose|i: int| 0 <= i < s.len() && s[i].game_id.value == id
}

/// The game with identifier `id`.
pub open spec fn spec_game(s: Seq<OracleGame>, id: u128) -> OracleGame {
    s[spec_game_idx(s, id)]
}

/// Well-formedness of one session: a game that needs an oracle secret
/// has one, and stored reveals carry actions legal for the game type.
pub open spec fn spec_game_wf(g: OracleGame) -> bool {
    &&& (spec_type_needs_secret(g.game_type) ==> g.oracle_secret is Some)
    &&& (g.reveal_a matches Some(r) ==> spec_action_valid(r.action, g.game_type))
    &&& (g.reveal_b matches Some(r) ==> spec_action_valid(r.action, g.game_type))
}

/// Well-formedness of the store: unique identifiers, each session
/// well-formed.
pub open spec fn spec_games_wf(s: Seq<OracleGame>) -> bool {
    &&& forall|i: int, j: int|
        0 <= i < j < s.len() ==> s[i].game_id.value != s[j].game_id.value
    &&& forall|i: int| 0 <= i < s.len() ==> spec_game_wf(#[trigger] s[i])
}

/// The commitment stored for a player.
pub open spec fn spec_stored_commit(g: OracleGame, p: Player) -> Option<Commitment> {
    match p {
        Player::A => g.commit_a,
        Player::B => g.commit_b,
    }
}

/// The reveal stored for a player.
pub open spec fn spec_stored_reveal(g: OracleGame, p: Player) -> Option<RevealData> {
    match p {
        Player::A => g.reveal_a,
        Player::B => g.reveal_b,
    }
}

/// The judge of a game type, as a function of the two actions and the
/// oracle's secret number.
pub open spec fn spec_game_judge(
    t: GameType,
    a: GameAction,
    b: GameAction,
    secret: Option<u8>,
) -> GameResult {
    match t {
        GameType::RockPaperScissors => spec_rps_judge(a->Rps_0, b->Rps_0),
        GameType::GuessNumber => spec_guess_judge(
            a->GuessNumber_0,
            b->GuessNumber_0,
            secret.unwrap(),
        ),
    }
}

/// The oracle's deterministic 64-byte signature over a result: the
/// first half is `SHA-256(game_id || ':' || label)`, the second half is
/// zero.
pub open spec fn spec_oracle_signature(id: GameId, r: GameResult) -> Seq<u8> {
    sha256_of(spec_u128_be_bytes(id.value) + seq![0x3au8] + spec_result_label_bytes(r)) + Seq::new(
        32,
        |i: int| 0u8,
    )
}

/// What a reveal submission reported: whether the game is still waiting
/// for the other reveal or is now judged.
#[derive(Clone, Copy, Debug, PartialEq, Eq, Structural)]
pub enum RevealOutcome {
    /// Stored; the other player has not revealed yet.
    Waiting,
    /// Both reveals present: the game was judged and signed.
    Complete,
}

/// What `join_game` hands the second player: the game parameters and
/// the oracle's cryptographic material.
#[derive(Debug)]
pub struct JoinInfo {
    /// The kind of game.
    pub game_type: GameType,
    /// The stake in shannons.
    pub amount: u64,
    /// The per-game nonce point `R`, compressed.
    pub commitment_point: Vec<u8>,
    /// The commitment to the oracle's secret, where the game needs one.
    pub oracle_commitment: Option<Vec<u8>>,
}

/// The actions and oracle secret of a completed game, for verification
/// by the players.
#[derive(Debug)]
pub struct GameData {
    /// Player A's revealed action.
    pub action_a: GameAction,
    /// Player B's revealed action.
    pub action_b: GameAction,
    /// The oracle's secret, for games that had one.
    pub oracle_secret: Option<crate::protocol::OracleSecretData>,
}

/// The oracle's answer to a result query.
#[derive(Debug)]
pub struct ResultInfo {
    /// Whether the game is completed.
    pub completed: bool,
    /// The judged result, once completed.
    pub result: Option<GameResult>,
    /// The 64-byte signature, once completed.
    pub signature: Option<Vec<u8>>,
    /// The revealed actions and oracle secret, once completed.
    pub game_data: Option<GameData>,
    /// Player B's preimage, released to player A exactly when A won.
    pub preimage_for_a: Option<Preimage>,
    /// Player A's preimage, released to player B exactly when B won.
    pub preimage_for_b: Option<Preimage>,
}

/// Relies on secp256k1 and rand: draws random bytes until they form a
/// valid secret key, and derives the compressed public key. Nothing is
/// promised of the values beyond their lengths.
#[verifier::external_body]
pub fn generate_keypair() -> (r: (Vec<u8>, Vec<u8>))
    ensures
        r.0@.len() == 32,
        r.1@.len() == 33,
{
    loop {
        let mut buf = [0u8; 32];
        rand::rng().fill_bytes(&mut buf);
        if let Ok(sk) = secp256k1::SecretKey::from_secret_bytes(buf) {
            let pk = secp256k1::PublicKey::from_secret_key(&sk);
            return (sk.to_secret_bytes().to_vec(), pk.serialize().to_vec());
        }
    }
}

/// The oracle engine: the long-term public key and the session store.
/// The matching secret keys stay outside the engine; the deterministic
/// signature construction here does not use them.
pub struct OracleEngine {
    oracle_pubkey: Vec<u8>,
    games: Vec<OracleGame>,
}

impl OracleEngine {
    /// The sessions the oracle holds.
    pub closed spec fn spec_games(&self) -> Seq<OracleGame> {
        self.games@
    }

    /// The oracle's long-term public key.
    pub closed spec fn spec_pubkey(&self) -> Seq<u8> {
        self.oracle_pubkey@
    }

    /// Well-formedness of the engine.
    pub open spec fn wf(&self) -> bool {
        spec_games_wf(self.spec_games())
    }

    /// Creates an engine for an oracle with the given compressed
    /// public key.
    pub fn new(oracle_pubkey: Vec<u8>) -> (r: Self)
        ensures
            r.wf(),
            r.spec_pubkey() == oracle_pubkey@,
            r.spec_games().len() == 0,
    {
        OracleEngine { oracle_pubkey, games: Vec::new() }
    }

    /// The oracle's compressed public key.
    pub fn pubkey(&self) -> (r: &Vec<u8>)
        ensures
            r@ == self.spec_pubkey(),
    {
        &self.oracle_pubkey
    }

    /// Finds the index of a game, if the store holds it.
    fn find_game(&self, game_id: &GameId) -> (r: Option<usize>)
        ensures
            match r {
                Some(i) => i < self.spec_games().len() && self.spec_games()[i as int].game_id.value
                    == game_id.value,
                None => !spec_contains_game(self.spec_games(), game_id.value),
            },
    {
        let mut i: usize = 0;
        while i < self.games.len()
            invariant
                i <= self.spec_games().len(),
                forall|j: int| 0 <= j < i ==> self.spec_games()[j].game_id.value != game_id.value,
            decreases self.spec_games().len() - i,
        {
            if self.games[i].game_id.value == game_id.value {
                return Some(i);
            }
            i = i + 1;
        }
        None
    }

    /// In a well-formed store, any index holding identifier `id` is the
    /// one `spec_game_idx` denotes.
    proof fn lemma_game_idx_unique(&self, id: u128, i: int)
        requires
            self.wf(),
            0 <= i < self.spec_games().len(),
            self.spec_games()[i].game_id.value == id,
        ensures
            spec_contains_game(self.spec_games(), id),
            spec_game_idx(self.spec_games(), id) == i,
    {
        assert(spec_contains_game(self.spec_games(), id));
        let j = spec_game_idx(self.spec_games(), id);
        if i < j {
            assert(false);
        } else if j < i {
            assert(false);
        }
    }

    /// Creates a game session: mints a fresh identifier and nonce
    /// keypair, samples and commits an oracle secret where the game
    /// type needs one, and records the session as waiting for an
    /// opponent. Fails only if the freshly drawn identifier is already
    /// in use, which has negligible probability.
    pub fn create_game(
        &mut self,
        game_type: GameType,
        player_a_id: u128,
        amount: u64,
        now: u64,
    ) -> (r: Result<GameSessionInfo, ProtocolError>)
        requires
            old(self).wf(),
        ensures
            final(self).wf(),
            final(self).spec_pubkey() == old(self).spec_pubkey(),
            r is Err ==> *final(self) == *old(self),
            r matches Ok(info) ==> {
                &&& final(self).spec_games().len() == old(self).spec_games().len() + 1
                &&& final(self).spec_games().subrange(
                    0,
                    old(self).spec_games().len() as int,
                ) == old(self).spec_games()
                &&& {
                    let g = final(self).spec_games().last();
                    &&& g.game_id == info.game_id
                    &&& g.game_type == game_type
                    &&& g.amount == amount
                    &&& g.status == GameStatus::WaitingForOpponent
                    &&& g.commitment_point@ == info.commitment_point@
                    &&& g.commitment_point@.len() == 33
                    &&& g.player_a_id == player_a_id
                    &&& g.player_b_id is None
                    &&& g.created_at == now
                    &&& g.result is None
                    &&& g.commit_a is None && g.commit_b is None
                    &&& g.reveal_a is None && g.reveal_b is None
                    &&& g.preimage_a is None && g.preimage_b is None
                    &&& (spec_type_needs_secret(game_type) ==> g.oracle_secret is Some
                        && g.oracle_secret.unwrap().secret_number < 100
                        && g.oracle_secret.unwrap().nonce@.len() == 32
                        && (g.oracle_commitment matches Some(c) && c@ == spec_secret_commitment_of(
                        g.oracle_secret.unwrap(),
                    ) && (info.oracle_commitment matches Some(ic) && ic@ == c@)))
                    &&& (!spec_type_needs_secret(game_type) ==> g.oracle_secret is None
                        && g.oracle_commitment is None && info.oracle_commitment is None)
                }
            },
    {
        let game_id = GameId::new();
        match self.find_game(&game_id) {
            Some(_) => Err(ProtocolError::GameExists),
            None => {
                let (_nonce_secret, commitment_point) = generate_keypair();
                let needs_secret = game_type.requires_oracle_secret();
                let (oracle_secret, oracle_commitment) = if needs_secret {
                    let secret = OracleSecret::random();
                    let commitment = secret.commitment();
                    (Some(secret), Some(commitment))
                } else {
                    (None, None)
                };
                let info_commitment = match &oracle_commitment {
                    Some(c) => Some(clone_bytes(c)),
                    None => None,
                };
                let info = GameSessionInfo {
                    game_id,
                    commitment_point: clone_bytes(&commitment_point),
                    oracle_commitment: info_commitment,
                };
                let game = OracleGame {
                    game_id,
                    game_type,
                    amount,
                    status: GameStatus::WaitingForOpponent,
                    commitment_point,
                    oracle_secret,
                    oracle_commitment,
                    player_a_id,
                    player_b_id: None,
                    payment_hash_a: None,
                    payment_hash_b: None,
                    preimage_a: None,
                    preimage_b: None,
                    invoice_a: None,
                    invoice_b: None,
                    encrypted_preimage_a: None,
                    encrypted_preimage_b: None,
                    commit_a: None,
                    commit_b: None,
                    reveal_a: None,
                    reveal_b: None,
                    result: None,
                    signature: None,
                    created_at: now,
                };
                self.games.push(game);
                proof {
                    assert(final(self).spec_games().subrange(
                        0,
                        old(self).spec_games().len() as int,
                    ) =~= old(self).spec_games());
                }
                Ok(info)
            },
        }
    }

    /// Joins a game as the second player: transitions it from
    /// `WaitingForOpponent` to `InProgress` and returns its parameters.
    pub fn join_game(&mut self, game_id: &GameId, player_b_id: u128) -> (r: Result<
        JoinInfo,
        ProtocolError,
    >)
        requires
            old(self).wf(),
        ensures
            final(self).wf(),
            final(self).spec_pubkey() == old(self).spec_pubkey(),
            !spec_contains_game(old(self).spec_games(), game_id.value) ==> (r matches Err(
                ProtocolError::GameNotFound,
            )) && *final(self) == *old(self),
            spec_contains_game(old(self).spec_games(), game_id.value) ==> {
                let oldg = spec_game(old(self).spec_games(), game_id.value);
                if oldg.status != GameStatus::WaitingForOpponent {
                    (r matches Err(ProtocolError::WrongPhase)) && *final(self) == *old(self)
                } else {
                    &&& r matches Ok(info) && info.game_type == oldg.game_type && info.amount
                        == oldg.amount && info.commitment_point@ == oldg.commitment_point@ && (match (
                        info.oracle_commitment,
                        oldg.oracle_commitment,
                    ) {
                        (Some(a), Some(b)) => a@ == b@,
                        (None, None) => true,
                        _ => false,
                    })
                    &&& final(self).spec_games() == old(self).spec_games().update(
                        spec_game_idx(old(self).spec_games(), game_id.value),
                        (OracleGame {
                            status: GameStatus::InProgress,
                            player_b_id: Some(player_b_id),
                            ..oldg
                        }),
                    )
                }
            },
    {
        let found = self.find_game(game_id);
        match found {
            None => Err(ProtocolError::GameNotFound),
            Some(i) => {
                proof {
                    self.lemma_game_idx_unique(game_id.value, i as int);
                }
                if !matches!(self.games[i].status, GameStatus::WaitingForOpponent) {
                    return Err(ProtocolError::WrongPhase);
                }
                let mut game = self.games.remove(i);
                game.status = GameStatus::InProgress;
                game.player_b_id = Some(player_b_id);
                let info = JoinInfo {
                    game_type: game.game_type,
                    amount: game.amount,
                    commitment_point: clone_bytes(&game.commitment_point),
                    oracle_commitment: match &game.oracle_commitment {
                        Some(c) => Some(clone_bytes(c)),
                        None => None,
                    },
                };
                self.games.insert(i, game);
                proof {
                    assert(final(self).spec_games() =~= old(self).spec_games().update(
                        i as int,
                        final(self).spec_games()[i as int],
                    ));
                }
                Ok(info)
            },
        }
    }
}

impl OracleEngine {
    /// Stores a player's payment hash and escrows the preimage behind
    /// it; the oracle reveals the preimage only in the winner-release
    /// step of `get_result`.
    pub fn submit_payment_hash(
        &mut self,
        game_id: &GameId,
        player: Player,
        payment_hash: PaymentHash,
        preimage: Preimage,
    ) -> (r: Result<(), ProtocolError>)
        requires
            old(self).wf(),
        ensures
            final(self).wf(),
            final(self).spec_pubkey() == old(self).spec_pubkey(),
            !spec_contains_game(old(self).spec_games(), game_id.value) ==> (r matches Err(
                ProtocolError::GameNotFound,
            )) && *final(self) == *old(self),
            spec_contains_game(old(self).spec_games(), game_id.value) ==> r is Ok && final(self).spec_games() == old(self).spec_games().update(
                spec_game_idx(old(self).spec_games(), game_id.value),
                (match player {
                    Player::A => (OracleGame {
                        payment_hash_a: Some(payment_hash),
                        preimage_a: Some(preimage),
                        ..spec_game(old(self).spec_games(), game_id.value)
                    }),
                    Player::B => (OracleGame {
                        payment_hash_b: Some(payment_hash),
                        preimage_b: Some(preimage),
                        ..spec_game(old(self).spec_games(), game_id.value)
                    }),
                }),
            ),
    {
        let found = self.find_game(game_id);
        match found {
            None => Err(ProtocolError::GameNotFound),
            Some(i) => {
                proof {
                    self.lemma_game_idx_unique(game_id.value, i as int);
                }
                let mut game = self.games.remove(i);
                match player {
                    Player::A => {
                        game.payment_hash_a = Some(payment_hash);
                        game.preimage_a = Some(preimage);
                    },
                    Player::B => {
                        game.payment_hash_b = Some(payment_hash);
                        game.preimage_b = Some(preimage);
                    },
                }
                self.games.insert(i, game);
                proof {
                    assert(final(self).spec_games() =~= old(self).spec_games().update(
                        i as int,
                        final(self).spec_games()[i as int],
                    ));
                }
                Ok(())
            },
        }
    }

    /// Returns a player's payment hash, once submitted.
    pub fn get_payment_hash(&self, game_id: &GameId, player: Player) -> (r: Result<
        PaymentHash,
        ProtocolError,
    >)
        requires
            self.wf(),
        ensures
            !spec_contains_game(self.spec_games(), game_id.value) ==> r matches Err(
                ProtocolError::GameNotFound,
            ),
            spec_contains_game(self.spec_games(), game_id.value) ==> (match spec_stored_hash(
                spec_game(self.spec_games(), game_id.value),
                player,
            ) {
                Some(h) => r matches Ok(v) && v@ == h@,
                None => r matches Err(ProtocolError::MissingExchange),
            }),
    {
        let found = self.find_game(game_id);
        match found {
            None => Err(ProtocolError::GameNotFound),
            Some(i) => {
                proof {
                    self.lemma_game_idx_unique(game_id.value, i as int);
                }
                let slot = match player {
                    Player::A => &self.games[i].payment_hash_a,
                    Player::B => &self.games[i].payment_hash_b,
                };
                match slot {
                    Some(h) => Ok(h.clone()),
                    None => Err(ProtocolError::MissingExchange),
                }
            },
        }
    }

    /// Stores a player's invoice string.
    pub fn submit_invoice(&mut self, game_id: &GameId, player: Player, invoice_string: String) -> (r:
        Result<(), ProtocolError>)
        requires
            old(self).wf(),
        ensures
            final(self).wf(),
            final(self).spec_pubkey() == old(self).spec_pubkey(),
            !spec_contains_game(old(self).spec_games(), game_id.value) ==> (r matches Err(
                ProtocolError::GameNotFound,
            )) && *final(self) == *old(self),
            spec_contains_game(old(self).spec_games(), game_id.value) ==> r is Ok && final(self).spec_games() == old(self).spec_games().update(
                spec_game_idx(old(self).spec_games(), game_id.value),
                (match player {
                    Player::A => (OracleGame {
                        invoice_a: Some(invoice_string),
                        ..spec_game(old(self).spec_games(), game_id.value)
                    }),
                    Player::B => (OracleGame {
                        invoice_b: Some(invoice_string),
                        ..spec_game(old(self).spec_games(), game_id.value)
                    }),
                }),
            ),
    {
        let found = self.find_game(game_id);
        match found {
            None => Err(ProtocolError::GameNotFound),
            Some(i) => {
                proof {
                    self.lemma_game_idx_unique(game_id.value, i as int);
                }
                let mut game = self.games.remove(i);
                match player {
                    Player::A => game.invoice_a = Some(invoice_string),
                    Player::B => game.invoice_b = Some(invoice_string),
                }
                self.games.insert(i, game);
                proof {
                    assert(final(self).spec_games() =~= old(self).spec_games().update(
                        i as int,
                        final(self).spec_games()[i as int],
                    ));
                }
                Ok(())
            },
        }
    }

    /// Returns a player's invoice string, once submitted.
    pub fn get_invoice(&self, game_id: &GameId, player: Player) -> (r: Result<
        String,
        ProtocolError,
    >)
        requires
            self.wf(),
        ensures
            !spec_contains_game(self.spec_games(), game_id.value) ==> r matches Err(
                ProtocolError::GameNotFound,
            ),
            spec_contains_game(self.spec_games(), game_id.value) ==> (match spec_stored_invoice(
                spec_game(self.spec_games(), game_id.value),
                player,
            ) {
                Some(s) => r matches Ok(v) && v@ == s@,
                None => r matches Err(ProtocolError::MissingExchange),
            }),
    {
        let found = self.find_game(game_id);
        match found {
            None => Err(ProtocolError::GameNotFound),
            Some(i) => {
                proof {
                    self.lemma_game_idx_unique(game_id.value, i as int);
                }
                let slot = match player {
                    Player::A => &self.games[i].invoice_a,
                    Player::B => &self.games[i].invoice_b,
                };
                match slot {
                    Some(s) => Ok(s.clone()),
                    None => Err(ProtocolError::MissingExchange),
                }
            },
        }
    }

    /// Stores a player's encrypted preimage.
    pub fn submit_encrypted_preimage(
        &mut self,
        game_id: &GameId,
        player: Player,
        encrypted_preimage: EncryptedPreimage,
    ) -> (r: Result<(), ProtocolError>)
        requires
            old(self).wf(),
        ensures
            final(self).wf(),
            final(self).spec_pubkey() == old(self).spec_pubkey(),
            !spec_contains_game(old(self).spec_games(), game_id.value) ==> (r matches Err(
                ProtocolError::GameNotFound,
            )) && *final(self) == *old(self),
            spec_contains_game(old(self).spec_games(), game_id.value) ==> r is Ok && final(self).spec_games() == old(self).spec_games().update(
                spec_game_idx(old(self).spec_games(), game_id.value),
                (match player {
                    Player::A => (OracleGame {
                        encrypted_preimage_a: Some(encrypted_preimage),
                        ..spec_game(old(self).spec_games(), game_id.value)
                    }),
                    Player::B => (OracleGame {
                        encrypted_preimage_b: Some(encrypted_preimage),
                        ..spec_game(old(self).spec_games(), game_id.value)
                    }),
                }),
            ),
    {
        let found = self.find_game(game_id);
        match found {
            None => Err(ProtocolError::GameNotFound),
            Some(i) => {
                proof {
                    self.lemma_game_idx_unique(game_id.value, i as int);
                }
                let mut game = self.games.remove(i);
                match player {
                    Player::A => game.encrypted_preimage_a = Some(encrypted_preimage),
                    Player::B => game.encrypted_preimage_b = Some(encrypted_preimage),
                }
                self.games.insert(i, game);
                proof {
                    assert(final(self).spec_games() =~= old(self).spec_games().update(
                        i as int,
                        final(self).spec_games()[i as int],
                    ));
                }
                Ok(())
            },
        }
    }

    /// Returns a player's encrypted preimage, once submitted.
    pub fn get_encrypted_preimage(&self, game_id: &GameId, player: Player) -> (r: Result<
        EncryptedPreimage,
        ProtocolError,
    >)
        requires
            self.wf(),
        ensures
            !spec_contains_game(self.spec_games(), game_id.value) ==> r matches Err(
                ProtocolError::GameNotFound,
            ),
            spec_contains_game(self.spec_games(), game_id.value) ==> (match spec_stored_encrypted(
                spec_game(self.spec_games(), game_id.value),
                player,
            ) {
                Some(e) => r matches Ok(v) && v@ == e@,
                None => r matches Err(ProtocolError::MissingExchange),
            }),
    {
        let found = self.find_game(game_id);
        match found {
            None => Err(ProtocolError::GameNotFound),
            Some(i) => {
                proof {
                    self.lemma_game_idx_unique(game_id.value, i as int);
                }
                let slot = match player {
                    Player::A => &self.games[i].encrypted_preimage_a,
                    Player::B => &self.games[i].encrypted_preimage_b,
                };
                match slot {
                    Some(e) => Ok(e.clone()),
                    None => Err(ProtocolError::MissingExchange),
                }
            },
        }
    }

    /// Stores a player's commitment. A second submission before the
    /// reveal overwrites the first.
    pub fn submit_commitment(&mut self, game_id: &GameId, player: Player, commitment: Commitment)
        -> (r: Result<(), ProtocolError>)
        requires
            old(self).wf(),
        ensures
            final(self).wf(),
            final(self).spec_pubkey() == old(self).spec_pubkey(),
            !spec_contains_game(old(self).spec_games(), game_id.value) ==> (r matches Err(
                ProtocolError::GameNotFound,
            )) && *final(self) == *old(self),
            spec_contains_game(old(self).spec_games(), game_id.value) ==> r is Ok && final(self).spec_games() == old(self).spec_games().update(
                spec_game_idx(old(self).spec_games(), game_id.value),
                (match player {
                    Player::A => (OracleGame {
                        commit_a: Some(commitment),
                        ..spec_game(old(self).spec_games(), game_id.value)
                    }),
                    Player::B => (OracleGame {
                        commit_b: Some(commitment),
                        ..spec_game(old(self).spec_games(), game_id.value)
                    }),
                }),
            ),
    {
        let found = self.find_game(game_id);
        match found {
            None => Err(ProtocolError::GameNotFound),
            Some(i) => {
                proof {
                    self.lemma_game_idx_unique(game_id.value, i as int);
                }
                let mut game = self.games.remove(i);
                match player {
                    Player::A => game.commit_a = Some(commitment),
                    Player::B => game.commit_b = Some(commitment),
                }
                self.games.insert(i, game);
                proof {
                    assert(final(self).spec_games() =~= old(self).spec_games().update(
                        i as int,
                        final(self).spec_games()[i as int],
                    ));
                }
                Ok(())
            },
        }
    }

    /// Reports a game's lifecycle status and whether an opponent has
    /// joined: the cheap polling endpoint.
    pub fn get_game_status(&self, game_id: &GameId) -> (r: Result<
        (GameStatus, bool),
        ProtocolError,
    >)
        requires
            self.wf(),
        ensures
            !spec_contains_game(self.spec_games(), game_id.value) ==> r matches Err(
                ProtocolError::GameNotFound,
            ),
            spec_contains_game(self.spec_games(), game_id.value) ==> (r matches Ok(v) && v.0
                == spec_game(self.spec_games(), game_id.value).status && v.1 == (spec_game(
                self.spec_games(),
                game_id.value,
            ).player_b_id is Some)),
    {
        let found = self.find_game(game_id);
        match found {
            None => Err(ProtocolError::GameNotFound),
            Some(i) => {
                proof {
                    self.lemma_game_idx_unique(game_id.value, i as int);
                }
                Ok((self.games[i].status, self.games[i].player_b_id.is_some()))
            },
        }
    }
}

/// The commitment a player echoes in a reveal: their own of the pair.
pub open spec fn spec_echo(p: Player, commit_a: Commitment, commit_b: Commitment) -> Commitment {
    match p {
        Player::A => commit_a,
        Player::B => commit_b,
    }
}

/// The game with a player's reveal slot filled.
pub open spec fn spec_with_reveal(
    g: OracleGame,
    p: Player,
    action: GameAction,
    salt: Salt,
) -> OracleGame {
    match p {
        Player::A => (OracleGame { reveal_a: Some(RevealData { action, salt }), ..g }),
        Player::B => (OracleGame { reveal_b: Some(RevealData { action, salt }), ..g }),
    }
}

/// The oracle's secret number for a game, where it has one.
pub open spec fn spec_secret_number(g: OracleGame) -> Option<u8> {
    match g.oracle_secret {
        Some(s) => Some(s.secret_number),
        None => None,
    }
}

impl OracleEngine {
    /// Accepts a player's reveal: checks the echoed commitment against
    /// the stored one, checks that the action and salt hash to it, and
    /// stores the reveal. When both reveals are present the game is
    /// judged, the result recorded, the status advanced to `Completed`,
    /// and the deterministic signature computed. Reveals on a completed
    /// game are rejected.
    pub fn submit_reveal(
        &mut self,
        game_id: &GameId,
        player: Player,
        action: GameAction,
        salt: Salt,
        commit_a: Commitment,
        commit_b: Commitment,
    ) -> (r: Result<RevealOutcome, ProtocolError>)
        requires
            old(self).wf(),
        ensures
            final(self).wf(),
            final(self).spec_pubkey() == old(self).spec_pubkey(),
            !spec_contains_game(old(self).spec_games(), game_id.value) ==> (r matches Err(
                ProtocolError::GameNotFound,
            )) && *final(self) == *old(self),
            spec_contains_game(old(self).spec_games(), game_id.value) ==> {
                let oldg = spec_game(old(self).spec_games(), game_id.value);
                let idx = spec_game_idx(old(self).spec_games(), game_id.value);
                if oldg.status != GameStatus::InProgress {
                    (r matches Err(ProtocolError::WrongPhase)) && *final(self) == *old(self)
                } else if !spec_action_valid(action, oldg.game_type) {
                    (r matches Err(ProtocolError::InvalidAction)) && *final(self) == *old(self)
                } else if spec_stored_commit(oldg, player) is None {
                    (r matches Err(ProtocolError::CommitmentMissing)) && *final(self) == *old(self)
                } else if spec_echo(player, commit_a, commit_b)@ != spec_stored_commit(
                    oldg,
                    player,
                ).unwrap()@ {
                    (r matches Err(ProtocolError::CommitmentMismatch)) && *final(self) == *old(
                        self,
                    )
                } else if spec_stored_commit(oldg, player).unwrap()@ != spec_commitment(
                    spec_action_bytes(action),
                    salt@,
                ) {
                    (r matches Err(ProtocolError::RevealMismatch)) && *final(self) == *old(self)
                } else if spec_stored_reveal(oldg, crate::protocol::spec_opponent(player))
                    is None {
                    (r matches Ok(RevealOutcome::Waiting)) && final(self).spec_games() == old(
                        self,
                    ).spec_games().update(idx, spec_with_reveal(oldg, player, action, salt))
                } else {
                    let action_a = if player == Player::A {
                        action
                    } else {
                        oldg.reveal_a.unwrap().action
                    };
                    let action_b = if player == Player::B {
                        action
                    } else {
                        oldg.reveal_b.unwrap().action
                    };
                    let res = spec_game_judge(
                        oldg.game_type,
                        action_a,
                        action_b,
                        spec_secret_number(oldg),
                    );
                    let g = spec_game(final(self).spec_games(), game_id.value);
                    &&& r matches Ok(RevealOutcome::Complete)
                    &&& final(self).spec_games() == old(self).spec_games().update(idx, g)
                    &&& g == (OracleGame {
                        status: GameStatus::Completed,
                        result: Some(res),
                        signature: g.signature,
                        reveal_a: g.reveal_a,
                        reveal_b: g.reveal_b,
                        ..oldg
                    })
                    &&& spec_stored_reveal(g, player) == Some(RevealData { action, salt })
                    &&& spec_stored_reveal(g, crate::protocol::spec_opponent(player))
                        == spec_stored_reveal(oldg, crate::protocol::spec_opponent(player))
                    &&& (g.signature matches Some(s) && s@ == spec_oracle_signature(
                        oldg.game_id,
                        res,
                    ))
                }
            },
    {
        let found = self.find_game(game_id);
        let i = match found {
            None => {
                return Err(ProtocolError::GameNotFound);
            },
            Some(i) => i,
        };
        proof {
            self.lemma_game_idx_unique(game_id.value, i as int);
        }
        if !matches!(self.games[i].status, GameStatus::InProgress) {
            return Err(ProtocolError::WrongPhase);
        }
        if !action.validate(self.games[i].game_type) {
            return Err(ProtocolError::InvalidAction);
        }
        let stored = match player {
            Player::A => &self.games[i].commit_a,
            Player::B => &self.games[i].commit_b,
        };
        let stored = match stored {
            None => {
                return Err(ProtocolError::CommitmentMissing);
            },
            Some(c) => c,
        };
        let echoed = match player {
            Player::A => &commit_a,
            Player::B => &commit_b,
        };
        if !(echoed == stored) {
            return Err(ProtocolError::CommitmentMismatch);
        }
        let action_bytes = action.to_bytes();
        if !stored.verify(&action_bytes, &salt) {
            return Err(ProtocolError::RevealMismatch);
        }
        let mut game = self.games.remove(i);
        match player {
            Player::A => game.reveal_a = Some(RevealData { action, salt }),
            Player::B => game.reveal_b = Some(RevealData { action, salt }),
        }
        let both = game.reveal_a.is_some() && game.reveal_b.is_some();
        if !both {
            self.games.insert(i, game);
            proof {
                assert(final(self).spec_games() =~= old(self).spec_games().update(
                    i as int,
                    final(self).spec_games()[i as int],
                ));
            }
            return Ok(RevealOutcome::Waiting);
        }
        let action_a = match &game.reveal_a {
            Some(rv) => rv.action,
            None => unreached(),
        };
        let action_b = match &game.reveal_b {
            Some(rv) => rv.action,
            None => unreached(),
        };
        let result = match game.game_type {
            GameType::RockPaperScissors => RpsGame::judge(&action_a, &action_b, None),
            GameType::GuessNumber => GuessNumberGame::judge(
                &action_a,
                &action_b,
                game.oracle_secret.as_ref(),
            ),
        };
        game.result = Some(result);
        game.status = GameStatus::Completed;
        let mut msg = game_id.as_bytes();
        msg.push(0x3au8);
        let label = result.label_bytes();
        let msg = crate::bytes::concat_bytes(&msg, &label);
        proof {
            assert(msg@ =~= spec_u128_be_bytes(game_id.value) + seq![0x3au8]
                + spec_result_label_bytes(result));
        }
        let mut sig = sha256(&msg);
        let mut k: usize = 0;
        while k < 32
            invariant
                k <= 32,
                sig@ == sha256_of(
                    spec_u128_be_bytes(game_id.value) + seq![0x3au8] + spec_result_label_bytes(
                        result,
                    ),
                ) + Seq::new(k as nat, |j: int| 0u8),
            decreases 32 - k,
        {
            sig.push(0u8);
            proof {
                assert(sig@ =~= sha256_of(
                    spec_u128_be_bytes(game_id.value) + seq![0x3au8] + spec_result_label_bytes(
                        result,
                    ),
                ) + Seq::new((k + 1) as nat, |j: int| 0u8));
            }
            k = k + 1;
        }
        proof {
            assert(sig@ =~= spec_oracle_signature(game.game_id, result));
        }
        game.signature = Some(sig);
        self.games.insert(i, game);
        proof {
            assert(final(self).spec_games() =~= old(self).spec_games().update(
                i as int,
                final(self).spec_games()[i as int],
            ));
        }
        Ok(RevealOutcome::Complete)
    }

    /// Reports a game's outcome. Before completion everything is
    /// pending; afterwards it returns the result, the signature, the
    /// revealed actions with the oracle's secret, and releases the
    /// losing player's preimage to the winner and to nobody else: A
    /// receives B's preimage exactly when A won, and symmetrically.
    pub fn get_result(&self, game_id: &GameId) -> (r: Result<ResultInfo, ProtocolError>)
        requires
            self.wf(),
        ensures
            !spec_contains_game(self.spec_games(), game_id.value) ==> r matches Err(
                ProtocolError::GameNotFound,
            ),
            spec_contains_game(self.spec_games(), game_id.value) ==> {
                let g = spec_game(self.spec_games(), game_id.value);
                if g.status != GameStatus::Completed {
                    r matches Ok(info) && !info.completed && info.result is None && info.signature
                        is None && info.game_data is None && info.preimage_for_a is None
                        && info.preimage_for_b is None
                } else {
                    &&& r matches Ok(info)
                    &&& info.completed
                    &&& info.result == g.result
                    &&& (match (info.signature, g.signature) {
                        (Some(a), Some(b)) => a@ == b@,
                        (None, None) => true,
                        _ => false,
                    })
                    &&& ((g.result == Some(GameResult::AWins) && g.preimage_b is Some)
                        <==> info.preimage_for_a is Some)
                    &&& (info.preimage_for_a matches Some(p) ==> p@ == g.preimage_b.unwrap()@)
                    &&& ((g.result == Some(GameResult::BWins) && g.preimage_a is Some)
                        <==> info.preimage_for_b is Some)
                    &&& (info.preimage_for_b matches Some(p) ==> p@ == g.preimage_a.unwrap()@)
                    &&& ((g.reveal_a is Some && g.reveal_b is Some) <==> info.game_data is Some)
                    &&& (info.game_data matches Some(d) ==> d.action_a == g.reveal_a.unwrap().action
                        && d.action_b == g.reveal_b.unwrap().action && ((d.oracle_secret is Some)
                        <==> (g.oracle_secret is Some)) && (d.oracle_secret matches Some(sd)
                        ==> sd.secret_number == g.oracle_secret.unwrap().secret_number && sd.nonce@
                        == g.oracle_secret.unwrap().nonce@))
                }
            },
    {
        let found = self.find_game(game_id);
        match found {
            None => Err(ProtocolError::GameNotFound),
            Some(i) => {
                proof {
                    self.lemma_game_idx_unique(game_id.value, i as int);
                }
                let game = &self.games[i];
                if !matches!(game.status, GameStatus::Completed) {
                    return Ok(
                        ResultInfo {
                            completed: false,
                            result: None,
                            signature: None,
                            game_data: None,
                            preimage_for_a: None,
                            preimage_for_b: None,
                        },
                    );
                }
                let game_data = match (&game.reveal_a, &game.reveal_b) {
                    (Some(ra), Some(rb)) => Some(
                        GameData {
                            action_a: ra.action,
                            action_b: rb.action,
                            oracle_secret: match &game.oracle_secret {
                                Some(s) => Some(
                                    crate::protocol::OracleSecretData {
                                        secret_number: s.secret_number,
                                        nonce: clone_bytes(&s.nonce),
                                    },
                                ),
                                None => None,
                            },
                        },
                    ),
                    _ => None,
                };
                let preimage_for_a = if matches!(game.result, Some(GameResult::AWins)) {
                    match &game.preimage_b {
                        Some(p) => Some(p.clone()),
                        None => None,
                    }
                } else {
                    None
                };
                let preimage_for_b = if matches!(game.result, Some(GameResult::BWins)) {
                    match &game.preimage_a {
                        Some(p) => Some(p.clone()),
                        None => None,
                    }
                } else {
                    None
                };
                Ok(
                    ResultInfo {
                        completed: true,
                        result: game.result,
                        signature: match &game.signature {
                            Some(s) => Some(clone_bytes(s)),
                            None => None,
                        },
                        game_data,
                        preimage_for_a,
                        preimage_for_b,
                    },
                )
            },
        }
    }
}

/// The payment hash stored for a player.
pub open spec fn spec_stored_hash(g: OracleGame, p: Player) -> Option<PaymentHash> {
    match p {
        Player::A => g.payment_hash_a,
        Player::B => g.payment_hash_b,
    }
}

/// The invoice string stored for a player.
pub open spec fn spec_stored_invoice(g: OracleGame, p: Player) -> Option<String> {
    match p {
        Player::A => g.invoice_a,
        Player::B => g.invoice_b,
    }
}

/// The encrypted preimage stored for a player.
pub open spec fn spec_stored_encrypted(g: OracleGame, p: Player) -> Option<EncryptedPreimage> {
    match p {
        Player::A => g.encrypted_preimage_a,
        Player::B => g.encrypted_preimage_b,
    }
}

/// What `create_game` announces: the identifier, the nonce point, and
/// the commitment to the oracle's secret where the game has one.
#[derive(Debug)]
pub struct GameSessionInfo {
    /// The fresh game identifier.
    pub game_id: GameId,
    /// The per-game nonce point `R`, compressed.
    pub commitment_point: Vec<u8>,
    /// The commitment to the oracle's secret.
    pub oracle_commitment: Option<Vec<u8>>,
}

/// The commitment value of an oracle secret.
pub open spec fn spec_secret_commitment_of(s: OracleSecret) -> Seq<u8> {
    crate::games::spec_secret_commitment(s.secret_number, s.nonce@)
}

} // verus!
