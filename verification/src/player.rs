//! The player's side of a game: a session state machine.
//!
//! The session decides each protocol step from plain values; the caller
//! performs the oracle and hold-invoice I/O and hands the answers back.
//!
//! The key invariant is the hold-invoice asymmetry: a party's own
//! invoice is created with the opponent's payment hash, so only the
//! opponent's preimage can settle it. The winner receives that preimage
//! from the oracle and settles; the loser's only valid move is to
//! cancel, refunding the opponent.

use vstd::prelude::*;

use crate::bytes::clone_bytes;
use crate::commitment::{spec_commitment, Commitment, Salt};
use crate::errors::ProtocolError;
use crate::fiber::HoldInvoice;
use crate::games::{spec_action_bytes, spec_action_valid, GameAction, GameType};
use crate::hashing::ckb_hash_of;
use crate::payment::{PaymentHash, Preimage};
use crate::protocol::{GameId, GameResult, Player};

verus! {

/// The phase a player's session is in.
#[derive(Clone, Copy, Debug, PartialEq, Eq, Structural)]
pub enum PlayerGamePhase {
    /// Created; the oracle has not reported an opponent yet.
    WaitingForOpponent,
    /// Opponent present; invoices are being exchanged and paid.
    ExchangingInvoices,
    /// Funds locked on both sides; the action can be played.
    WaitingForAction,
    /// The commitment was submitted.
    Committed,
    /// The reveal was submitted; the opponent has not revealed yet.
    Revealed,
    /// The oracle judged the game; the session can settle.
    WaitingForResult,
    /// Settled; re-entry is rejected.
    Settled,
}

/// The settlement step a finished session calls for.
pub enum SettleAction {
    /// The winner settles their own invoice with the opponent's
    /// preimage, claiming the stake the opponent paid.
    Settle(PaymentHash, Preimage),
    /// The loser cancels their own invoice, refunding the opponent.
    CancelOwn(PaymentHash),
    /// On a draw both sides cancel: the own invoice, and the
    /// opponent's where its hash is known locally.
    CancelBoth(PaymentHash, Option<PaymentHash>),
}

/// Whether a player settles (wins the stake) under a result.
pub open spec fn spec_settles(role: Player, result: GameResult) -> bool {
    match (role, result) {
        (Player::A, GameResult::AWins) => true,
        (Player::B, GameResult::BWins) => true,
        _ => false,
    }
}

/// A player's session for one game.
#[derive(Debug)]
pub struct PlayerSession {
    /// Which side this session plays.
    pub role: Player,
    /// The game identifier.
    pub game_id: GameId,
    /// The kind of game.
    pub game_type: GameType,
    /// The stake in shannons.
    pub amount: u64,
    /// This player's secret preimage.
    pub preimage: Preimage,
    /// The payment hash of the preimage, shared with the opponent.
    pub payment_hash: PaymentHash,
    /// The salt of the commitment.
    pub salt: Salt,
    /// The chosen action, once played.
    pub action: Option<GameAction>,
    /// The oracle's long-term public key, compressed.
    pub oracle_pubkey: Option<Vec<u8>>,
    /// The oracle's per-game nonce point, compressed.
    pub commitment_point: Option<Vec<u8>>,
    /// The opponent's payment hash, once exchanged.
    pub opponent_payment_hash: Option<PaymentHash>,
    /// The opponent's preimage, released by the oracle if this player
    /// won.
    pub opponent_preimage: Option<Preimage>,
    /// This player's commitment, once played.
    pub my_commitment: Option<Commitment>,
    /// The opponent's revealed action, once reported.
    pub opponent_action: Option<GameAction>,
    /// The invoice this player created with the opponent's hash; the
    /// opponent pays it, and only the opponent's preimage settles it.
    pub my_invoice: Option<HoldInvoice>,
    /// The opponent's invoice, created with this player's hash; this
    /// player pays it.
    pub opponent_invoice: Option<HoldInvoice>,
    /// Whether the opponent's invoice has been paid.
    pub paid_opponent: bool,
    /// The session phase.
    pub phase: PlayerGamePhase,
    /// The judged result, once reported.
    pub result: Option<GameResult>,
}

impl PlayerSession {
    /// Well-formedness: the session's payment hash is the hash of its
    /// preimage, and the own invoice, once created, is bound to the
    /// opponent's payment hash.
    pub open spec fn wf(&self) -> bool {
        &&& self.payment_hash@ == ckb_hash_of(self.preimage@)
        &&& (self.my_invoice matches Some(inv) ==> self.opponent_payment_hash is Some
            && inv.payment_hash@ == self.opponent_payment_hash.unwrap()@)
        &&& (self.phase == PlayerGamePhase::WaitingForOpponent ==> self.opponent_payment_hash
            is None && self.my_invoice is None)
    }

    /// Starts a session as player A: draws the preimage and the salt,
    /// computes the payment hash, and waits for an opponent.
    pub fn create(
        game_id: GameId,
        game_type: GameType,
        amount: u64,
        oracle_pubkey: Vec<u8>,
        commitment_point: Vec<u8>,
    ) -> (r: Self)
        ensures
            r.wf(),
            r.role == Player::A,
            r.game_id == game_id,
            r.game_type == game_type,
            r.amount == amount,
            r.phase == PlayerGamePhase::WaitingForOpponent,
            r.action is None,
            r.result is None,
            r.my_invoice is None,
            r.opponent_payment_hash is None,
            !r.paid_opponent,
            r.preimage@.len() == 32,
            r.salt@.len() == 32,
    {
        let preimage = Preimage::random();
        let payment_hash = preimage.payment_hash();
        PlayerSession {
            role: Player::A,
            game_id,
            game_type,
            amount,
            preimage,
            payment_hash,
            salt: Salt::random(),
            action: None,
            oracle_pubkey: Some(oracle_pubkey),
            commitment_point: Some(commitment_point),
            opponent_payment_hash: None,
            opponent_preimage: None,
            my_commitment: None,
            opponent_action: None,
            my_invoice: None,
            opponent_invoice: None,
            paid_opponent: false,
            phase: PlayerGamePhase::WaitingForOpponent,
            result: None,
        }
    }

    /// Starts a session as player B, joining a game whose parameters
    /// the oracle reported, with the opponent's payment hash already
    /// fetched.
    pub fn join(
        game_id: GameId,
        game_type: GameType,
        amount: u64,
        oracle_pubkey: Vec<u8>,
        commitment_point: Vec<u8>,
        opponent_payment_hash: PaymentHash,
    ) -> (r: Self)
        ensures
            r.wf(),
            r.role == Player::B,
            r.game_id == game_id,
            r.game_type == game_type,
            r.amount == amount,
            r.phase == PlayerGamePhase::ExchangingInvoices,
            r.opponent_payment_hash == Some(opponent_payment_hash),
            r.my_invoice is None,
            !r.paid_opponent,
            r.preimage@.len() == 32,
            r.salt@.len() == 32,
    {
        let preimage = Preimage::random();
        let payment_hash = preimage.payment_hash();
        PlayerSession {
            role: Player::B,
            game_id,
            game_type,
            amount,
            preimage,
            payment_hash,
            salt: Salt::random(),
            action: None,
            oracle_pubkey: Some(oracle_pubkey),
            commitment_point: Some(commitment_point),
            opponent_payment_hash: Some(opponent_payment_hash),
            opponent_preimage: None,
            my_commitment: None,
            opponent_action: None,
            my_invoice: None,
            opponent_invoice: None,
            paid_opponent: false,
            phase: PlayerGamePhase::ExchangingInvoices,
            result: None,
        }
    }

    /// Records that the oracle reported an opponent, together with the
    /// opponent's payment hash; the session starts exchanging invoices.
    pub fn on_opponent_joined(&mut self, opponent_payment_hash: PaymentHash) -> (r: Result<
        (),
        ProtocolError,
    >)
        requires
            old(self).wf(),
        ensures
            final(self).wf(),
            old(self).phase != PlayerGamePhase::WaitingForOpponent ==> (r matches Err(
                ProtocolError::WrongPhase,
            )) && *final(self) == *old(self),
            old(self).phase == PlayerGamePhase::WaitingForOpponent ==> r is Ok && *final(self)
                == (PlayerSession {
                opponent_payment_hash: Some(opponent_payment_hash),
                phase: PlayerGamePhase::ExchangingInvoices,
                ..*old(self)
            }),
    {
        if !matches!(self.phase, PlayerGamePhase::WaitingForOpponent) {
            return Err(ProtocolError::WrongPhase);
        }
        self.opponent_payment_hash = Some(opponent_payment_hash);
        self.phase = PlayerGamePhase::ExchangingInvoices;
        Ok(())
    }

    /// What this player's node must create: a hold invoice bound to the
    /// opponent's payment hash over the stake.
    pub fn invoice_request(&self) -> (r: Result<(PaymentHash, u64), ProtocolError>)
        ensures
            self.opponent_payment_hash is None ==> r matches Err(ProtocolError::MissingExchange),
            self.opponent_payment_hash matches Some(h) ==> (r matches Ok(v) && v.0@ == h@ && v.1
                == self.amount),
    {
        match &self.opponent_payment_hash {
            None => Err(ProtocolError::MissingExchange),
            Some(h) => Ok((h.clone(), self.amount)),
        }
    }

    /// Stores the invoice this player's node created. It must be bound
    /// to the opponent's payment hash: that is what makes the game
    /// atomic.
    pub fn on_my_invoice(&mut self, invoice: HoldInvoice) -> (r: Result<(), ProtocolError>)
        requires
            old(self).wf(),
        ensures
            final(self).wf(),
            old(self).opponent_payment_hash is None ==> (r matches Err(
                ProtocolError::MissingExchange,
            )) && *final(self) == *old(self),
            old(self).opponent_payment_hash matches Some(h) && invoice.payment_hash@ != h@ ==> (
            r matches Err(ProtocolError::InvoiceMismatch)) && *final(self) == *old(self),
            old(self).opponent_payment_hash matches Some(h) && invoice.payment_hash@ == h@ ==> r
                is Ok && *final(self) == (PlayerSession {
                my_invoice: Some(invoice),
                ..*old(self)
            }),
    {
        let expected = match &self.opponent_payment_hash {
            None => {
                return Err(ProtocolError::MissingExchange);
            },
            Some(h) => h,
        };
        if !crate::bytes::bytes_eq(invoice.payment_hash.as_bytes(), expected.as_bytes()) {
            return Err(ProtocolError::InvoiceMismatch);
        }
        self.my_invoice = Some(invoice);
        Ok(())
    }

    /// Builds the opponent's invoice from the string fetched through
    /// the oracle: it is bound to this player's own payment hash.
    pub fn opponent_invoice_to_pay(&self, invoice_string: String, expiry_secs: u64) -> (r:
        HoldInvoice)
        ensures
            r.payment_hash@ == self.payment_hash@,
            r.amount == self.amount,
            r.expiry_secs == expiry_secs,
            r.invoice_string@ == invoice_string@,
    {
        HoldInvoice {
            payment_hash: self.payment_hash.clone(),
            amount: self.amount,
            expiry_secs,
            invoice_string,
        }
    }

    /// Records that the opponent's invoice was paid: funds are locked
    /// on both sides and the action can be played.
    pub fn on_paid_opponent(&mut self, invoice: HoldInvoice) -> (r: Result<(), ProtocolError>)
        requires
            old(self).wf(),
        ensures
            final(self).wf(),
            invoice.payment_hash@ != old(self).payment_hash@ ==> (r matches Err(
                ProtocolError::InvoiceMismatch,
            )) && *final(self) == *old(self),
            invoice.payment_hash@ == old(self).payment_hash@ ==> r is Ok && *final(self)
                == (PlayerSession {
                opponent_invoice: Some(invoice),
                paid_opponent: true,
                phase: PlayerGamePhase::WaitingForAction,
                ..*old(self)
            }),
    {
        if !crate::bytes::bytes_eq(invoice.payment_hash.as_bytes(), self.payment_hash.as_bytes()) {
            return Err(ProtocolError::InvoiceMismatch);
        }
        self.opponent_invoice = Some(invoice);
        self.paid_opponent = true;
        self.phase = PlayerGamePhase::WaitingForAction;
        Ok(())
    }

    /// Chooses the action: computes and stores the commitment
    /// `SHA-256(action_bytes || salt)` and returns it for submission.
    pub fn commit_action(&mut self, action: GameAction) -> (r: Result<Commitment, ProtocolError>)
        requires
            old(self).wf(),
        ensures
            final(self).wf(),
            old(self).phase != PlayerGamePhase::WaitingForAction ==> (r matches Err(
                ProtocolError::WrongPhase,
            )) && *final(self) == *old(self),
            old(self).phase == PlayerGamePhase::WaitingForAction && !spec_action_valid(
                action,
                old(self).game_type,
            ) ==> (r matches Err(ProtocolError::InvalidAction)) && *final(self) == *old(self),
            old(self).phase == PlayerGamePhase::WaitingForAction && spec_action_valid(
                action,
                old(self).game_type,
            ) ==> (r matches Ok(c) && c@ == spec_commitment(
                spec_action_bytes(action),
                old(self).salt@,
            )) && *final(self) == (PlayerSession {
                action: Some(action),
                my_commitment: final(self).my_commitment,
                phase: PlayerGamePhase::Committed,
                ..*old(self)
            }) && (final(self).my_commitment matches Some(c2) && c2@ == spec_commitment(
                spec_action_bytes(action),
                old(self).salt@,
            )),
    {
        if !matches!(self.phase, PlayerGamePhase::WaitingForAction) {
            return Err(ProtocolError::WrongPhase);
        }
        if !action.validate(self.game_type) {
            return Err(ProtocolError::InvalidAction);
        }
        let action_bytes = action.to_bytes();
        let commitment = Commitment::new(&action_bytes, &self.salt);
        let echo = Commitment::from_bytes(clone_bytes(commitment.as_bytes()));
        self.action = Some(action);
        self.my_commitment = Some(commitment);
        self.phase = PlayerGamePhase::Committed;
        Ok(echo)
    }

    /// The salt to reveal along with the action.
    pub fn reveal_salt(&self) -> (r: Salt)
        ensures
            r@ == self.salt@,
    {
        Salt::from_bytes(clone_bytes(self.salt.as_bytes()))
    }

    /// Records the oracle's answer to the reveal: the session waits for
    /// the result if the game is complete, or for the opponent's reveal
    /// otherwise.
    pub fn on_reveal_ack(&mut self, game_complete: bool) -> (r: Result<(), ProtocolError>)
        requires
            old(self).wf(),
        ensures
            final(self).wf(),
            old(self).phase != PlayerGamePhase::Committed ==> (r matches Err(
                ProtocolError::WrongPhase,
            )) && *final(self) == *old(self),
            old(self).phase == PlayerGamePhase::Committed ==> r is Ok && *final(self)
                == (PlayerSession {
                phase: if game_complete {
                    PlayerGamePhase::WaitingForResult
                } else {
                    PlayerGamePhase::Revealed
                },
                ..*old(self)
            }),
    {
        if !matches!(self.phase, PlayerGamePhase::Committed) {
            return Err(ProtocolError::WrongPhase);
        }
        self.phase = if game_complete {
            PlayerGamePhase::WaitingForResult
        } else {
            PlayerGamePhase::Revealed
        };
        Ok(())
    }

    /// Records the oracle's judged result, the opponent's action, and,
    /// if this player won, the opponent's preimage.
    pub fn on_result(
        &mut self,
        result: GameResult,
        opponent_action: Option<GameAction>,
        opponent_preimage: Option<Preimage>,
    ) -> (r: Result<(), ProtocolError>)
        requires
            old(self).wf(),
        ensures
            final(self).wf(),
            !(old(self).phase == PlayerGamePhase::Revealed || old(self).phase
                == PlayerGamePhase::WaitingForResult) ==> (r matches Err(
                ProtocolError::WrongPhase,
            )) && *final(self) == *old(self),
            (old(self).phase == PlayerGamePhase::Revealed || old(self).phase
                == PlayerGamePhase::WaitingForResult) ==> r is Ok && *final(self)
                == (PlayerSession {
                result: Some(result),
                opponent_action,
                opponent_preimage,
                phase: PlayerGamePhase::WaitingForResult,
                ..*old(self)
            }),
    {
        if !(matches!(self.phase, PlayerGamePhase::Revealed) || matches!(
            self.phase,
            PlayerGamePhase::WaitingForResult,
        )) {
            return Err(ProtocolError::WrongPhase);
        }
        self.result = Some(result);
        self.opponent_action = opponent_action;
        self.opponent_preimage = opponent_preimage;
        self.phase = PlayerGamePhase::WaitingForResult;
        Ok(())
    }

    /// The settlement step this session calls for: the winner settles
    /// their own invoice with the opponent's preimage, the loser
    /// cancels their own invoice, and on a draw both sides cancel.
    pub fn settle_action(&self) -> (r: Result<SettleAction, ProtocolError>)
        requires
            self.wf(),
        ensures
            self.phase == PlayerGamePhase::Settled ==> r matches Err(ProtocolError::WrongPhase),
            self.phase != PlayerGamePhase::Settled && self.result is None ==> r matches Err(
                ProtocolError::WrongPhase,
            ),
            self.phase != PlayerGamePhase::Settled && self.result is Some && self.my_invoice
                is None ==> r matches Err(ProtocolError::MissingExchange),
            self.phase != PlayerGamePhase::Settled && self.result is Some && self.my_invoice
                is Some ==> {
                let res = self.result.unwrap();
                let inv = self.my_invoice.unwrap();
                if spec_settles(self.role, res) {
                    if self.opponent_preimage is Some {
                        r matches Ok(SettleAction::Settle(h, pr)) && h@ == inv.payment_hash@ && pr@
                            == self.opponent_preimage.unwrap()@
                    } else {
                        r matches Err(ProtocolError::PreimageUnavailable)
                    }
                } else if res != GameResult::Draw {
                    r matches Ok(SettleAction::CancelOwn(h)) && h@ == inv.payment_hash@
                } else {
                    r matches Ok(SettleAction::CancelBoth(h, other)) && h@ == inv.payment_hash@
                        && (match (other, self.opponent_invoice) {
                        (Some(oh), Some(oi)) => oh@ == oi.payment_hash@,
                        (None, None) => true,
                        _ => false,
                    })
                }
            },
    {
        if matches!(self.phase, PlayerGamePhase::Settled) {
            return Err(ProtocolError::WrongPhase);
        }
        let result = match &self.result {
            None => {
                return Err(ProtocolError::WrongPhase);
            },
            Some(res) => *res,
        };
        let invoice = match &self.my_invoice {
            None => {
                return Err(ProtocolError::MissingExchange);
            },
            Some(inv) => inv,
        };
        let i_settle = match (self.role, result) {
            (Player::A, GameResult::AWins) => true,
            (Player::B, GameResult::BWins) => true,
            _ => false,
        };
        if i_settle {
            match &self.opponent_preimage {
                Some(p) => Ok(SettleAction::Settle(invoice.payment_hash.clone(), p.clone())),
                None => Err(ProtocolError::PreimageUnavailable),
            }
        } else if !matches!(result, GameResult::Draw) {
            Ok(SettleAction::CancelOwn(invoice.payment_hash.clone()))
        } else {
            let other = match &self.opponent_invoice {
                Some(oi) => Some(oi.payment_hash.clone()),
                None => None,
            };
            Ok(SettleAction::CancelBoth(invoice.payment_hash.clone(), other))
        }
    }

    /// The stake this session won or lost: positive for the winner,
    /// negative for the loser, zero on a draw.
    pub fn amount_won(&self) -> (r: i128)
        ensures
            self.result matches Some(res) ==> r == (if spec_settles(self.role, res) {
                self.amount as int
            } else if res == GameResult::Draw {
                0
            } else {
                -(self.amount as int)
            }),
            self.result is None ==> r == 0,
    {
        match &self.result {
            None => 0,
            Some(res) => {
                let i_settle = match (self.role, *res) {
                    (Player::A, GameResult::AWins) => true,
                    (Player::B, GameResult::BWins) => true,
                    _ => false,
                };
                if i_settle {
                    self.amount as i128
                } else if matches!(res, GameResult::Draw) {
                    0
                } else {
                    -(self.amount as i128)
                }
            },
        }
    }

    /// Marks the session settled; settling twice is rejected.
    pub fn mark_settled(&mut self) -> (r: Result<(), ProtocolError>)
        requires
            old(self).wf(),
        ensures
            final(self).wf(),
            old(self).phase == PlayerGamePhase::Settled ==> (r matches Err(
                ProtocolError::WrongPhase,
            )) && *final(self) == *old(self),
            old(self).phase != PlayerGamePhase::Settled ==> r is Ok && *final(self)
                == (PlayerSession { phase: PlayerGamePhase::Settled, ..*old(self) }),
    {
        if matches!(self.phase, PlayerGamePhase::Settled) {
            return Err(ProtocolError::WrongPhase);
        }
        self.phase = PlayerGamePhase::Settled;
        Ok(())
    }
}

/// Game-state conservation: under any result, exactly one of three
/// things happens across the two sessions of a game. A settles and B
/// cancels when A wins; B settles and A cancels when B wins; both
/// cancel on a draw. In no case do both settle.
pub proof fn lemma_settlement_conservation(result: GameResult)
    ensures
        spec_settles(Player::A, result) <==> result == GameResult::AWins,
        spec_settles(Player::B, result) <==> result == GameResult::BWins,
        (result == GameResult::Draw) <==> (!spec_settles(Player::A, result) && !spec_settles(
            Player::B,
            result,
        )),
        !(spec_settles(Player::A, result) && spec_settles(Player::B, result)),
{
}

} // verus!
