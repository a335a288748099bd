//! Error taxonomy shared by the crypto primitives, the hold-invoice
//! capability, the game protocol and the escrow engine.

use vstd::prelude::*;

verus! {

/// Failure while parsing a hex-encoded value.
#[derive(Clone, Copy, Debug, PartialEq, Eq, Structural)]
pub enum HexError {
    /// The hex string has an odd number of digits.
    OddLength,
    /// A character outside `0-9a-fA-F` was found.
    InvalidChar,
    /// The decoded byte string does not have the expected length.
    WrongLength,
}

/// Failure inside an elliptic-curve computation.
#[derive(Clone, Copy, Debug, PartialEq, Eq, Structural)]
pub enum CryptoError {
    /// A byte string did not encode a valid curve point or scalar, or a
    /// point operation produced an invalid result.
    InvalidPoint,
}

/// Failures of hold-invoice operations.
#[derive(Clone, Debug)]
pub enum FiberError {
    /// No invoice with the given payment hash exists.
    InvoiceNotFound,
    /// The preimage does not hash to the invoice's payment hash.
    InvalidPreimage,
    /// The invoice was already settled.
    AlreadySettled,
    /// The invoice was already cancelled.
    AlreadyCancelled,
    /// The invoice expired before it was paid.
    Expired,
    /// The payer's balance cannot cover the invoice amount.
    InsufficientFunds,
    /// The remote node reported a failed payment.
    PaymentFailed(String),
    /// Transport-level failure.
    NetworkError(String),
}

/// Failures of the oracle's and the player's game protocol operations.
#[derive(Clone, Copy, Debug, PartialEq, Eq, Structural)]
pub enum ProtocolError {
    /// No game with the given identifier exists.
    GameNotFound,
    /// A freshly drawn game identifier is already in use.
    GameExists,
    /// The game is not in the phase the operation needs.
    WrongPhase,
    /// A reveal arrived before the player's commitment.
    CommitmentMissing,
    /// The commitment echoed in a reveal differs from the stored one.
    CommitmentMismatch,
    /// The revealed action and salt do not hash to the stored commitment.
    RevealMismatch,
    /// The action is not legal for the game type.
    InvalidAction,
    /// A required value (hash, invoice or preimage) was not exchanged yet.
    MissingExchange,
    /// An invoice is bound to a different payment hash than the
    /// protocol step requires.
    InvoiceMismatch,
    /// The opponent's preimage is not available for settlement.
    PreimageUnavailable,
}

/// Failures of the escrow order engine.
#[derive(Clone, Copy, Debug, PartialEq, Eq, Structural)]
pub enum EscrowError {
    /// No order with the given identifier exists.
    OrderNotFound,
    /// A freshly drawn identifier is already in use.
    IdInUse,
    /// No product with the given identifier exists.
    ProductNotFound,
    /// The caller is not the party allowed to perform the operation.
    UnauthorizedCaller,
    /// The order is not in the status the operation needs.
    WrongOrderStatus,
    /// The product was already sold.
    ProductNotAvailable,
    /// A buyer may not purchase their own product.
    SelfPurchase,
    /// The seller has not submitted an invoice yet.
    NoInvoiceSubmitted,
    /// The payment was not observed as held before the polling deadline.
    PaymentNotReceived,
    /// The payment was cancelled before it was held.
    PaymentCancelled,
}

} // verus!
