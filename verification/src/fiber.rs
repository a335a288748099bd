//! The hold-invoice client capability: shared types, the status mapping
//! of the remote JSON-RPC node, and its parameter encodings.
//!
//! The operations themselves exist twice: as the verified in-memory
//! mock in [`crate::mock`], and as a thin RPC proxy outside the
//! library that encodes its parameters with the functions here.

use vstd::prelude::*;
use vstd::string::StringExecFns;

use crate::errors::FiberError;
use crate::payment::PaymentHash;
use crate::protocol::fresh_uuid_u128;

verus! {

/// Fiber requires at least this final expiry delta, in milliseconds.
pub const FINAL_EXPIRY_DELTA_MS: u64 = 9600000;

/// A hold invoice: funds locked against a payment hash until the payee
/// settles with the preimage or the invoice is cancelled.
#[derive(Debug)]
pub struct HoldInvoice {
    /// The payment hash the invoice is bound to.
    pub payment_hash: PaymentHash,
    /// The amount in shannons.
    pub amount: u64,
    /// The expiry time in seconds.
    pub expiry_secs: u64,
    /// The encoded invoice string.
    pub invoice_string: String,
}

/// A payment identifier: the 128 bits of a random UUID.
#[derive(Clone, Copy, Debug, PartialEq, Eq, Structural, Hash)]
pub struct PaymentId {
    pub value: u128,
}

impl PaymentId {
    /// Draws a fresh random payment identifier.
    pub fn new() -> Self {
        PaymentId { value: fresh_uuid_u128() }
    }
}

/// The status of a hold-invoice payment.
#[derive(Clone, Copy, Debug, PartialEq, Eq, Structural)]
pub enum PaymentStatus {
    /// Hold invoice created, not yet paid.
    Pending,
    /// Funds locked, waiting for the preimage.
    Held,
    /// Settled with the preimage.
    Settled,
    /// Refunded.
    Cancelled,
}

/// The currency tag of a Fiber invoice.
#[derive(Clone, Copy, Debug, PartialEq, Eq, Structural)]
pub enum Currency {
    /// Mainnet.
    Fibb,
    /// Testnet.
    Fibt,
    /// Devnet.
    Fibd,
}

impl Currency {
    /// The tag as the RPC interface spells it.
    pub fn label(&self) -> (r: &'static str)
        ensures
            r@ == spec_currency_label(*self),
    {
        proof {
            reveal_strlit("Fibb");
            reveal_strlit("Fibt");
            reveal_strlit("Fibd");
        }
        match self {
            Currency::Fibb => "Fibb",
            Currency::Fibt => "Fibt",
            Currency::Fibd => "Fibd",
        }
    }
}

/// The characters of a currency tag.
pub open spec fn spec_currency_label(c: Currency) -> Seq<char> {
    match c {
        Currency::Fibb => "Fibb"@,
        Currency::Fibt => "Fibt"@,
        Currency::Fibd => "Fibd"@,
    }
}

impl Default for Currency {
    /// Testnet, unless chosen otherwise.
    fn default() -> (r: Self)
        ensures
            r == Currency::Fibt,
    {
        Currency::Fibt
    }
}

/// An invoice status as the remote Fiber node reports it.
#[derive(Clone, Copy, Debug, PartialEq, Eq, Structural)]
pub enum CkbInvoiceStatus {
    /// The invoice is open and can be paid.
    Open,
    /// The invoice is cancelled.
    Cancelled,
    /// The invoice is expired.
    Expired,
    /// Payment received but not settled yet.
    Received,
    /// The invoice is paid and settled.
    Paid,
}

/// The payment status a remote invoice status maps to.
pub open spec fn spec_status_of_remote(s: CkbInvoiceStatus) -> PaymentStatus {
    match s {
        CkbInvoiceStatus::Open => PaymentStatus::Pending,
        CkbInvoiceStatus::Received => PaymentStatus::Held,
        CkbInvoiceStatus::Paid => PaymentStatus::Settled,
        CkbInvoiceStatus::Cancelled => PaymentStatus::Cancelled,
        CkbInvoiceStatus::Expired => PaymentStatus::Cancelled,
    }
}

/// Maps a remote invoice status to the payment status of the
/// capability: `Open` is pending, `Received` is held, `Paid` is
/// settled, `Cancelled` and `Expired` are cancelled.
pub fn map_invoice_status(s: CkbInvoiceStatus) -> (r: PaymentStatus)
    ensures
        r == spec_status_of_remote(s),
{
    match s {
        CkbInvoiceStatus::Open => PaymentStatus::Pending,
        CkbInvoiceStatus::Received => PaymentStatus::Held,
        CkbInvoiceStatus::Paid => PaymentStatus::Settled,
        CkbInvoiceStatus::Cancelled => PaymentStatus::Cancelled,
        CkbInvoiceStatus::Expired => PaymentStatus::Cancelled,
    }
}

/// Interprets the status a `cancel_invoice` RPC call returned: an
/// explicit `Cancelled` is success, `Paid` means the invoice was
/// already settled, and anything else is taken as success.
pub fn interpret_cancel_status(status: Option<CkbInvoiceStatus>) -> (r: Result<(), FiberError>)
    ensures
        status == Some(CkbInvoiceStatus::Paid) ==> r matches Err(FiberError::AlreadySettled),
        status != Some(CkbInvoiceStatus::Paid) ==> r is Ok,
{
    match status {
        Some(CkbInvoiceStatus::Paid) => Err(FiberError::AlreadySettled),
        _ => Ok(()),
    }
}

/// The reported state of a payment sent with `send_payment`.
#[derive(Clone, Copy, Debug, PartialEq, Eq, Structural)]
pub enum SendPaymentOutcome {
    /// The node reported `success`.
    Success,
    /// The node reported `inflight`.
    Inflight,
    /// The node reported `created`.
    Created,
    /// Any other report.
    Failed,
}

/// Whether a `send_payment` outcome counts as an accepted payment.
pub open spec fn spec_send_accepted(s: SendPaymentOutcome) -> bool {
    s == SendPaymentOutcome::Success || s == SendPaymentOutcome::Inflight || s
        == SendPaymentOutcome::Created
}

/// Interprets a `send_payment` report: `success`, `inflight` and
/// `created` yield a fresh payment identifier; anything else fails with
/// the node's error message.
pub fn interpret_send_outcome(outcome: SendPaymentOutcome, failed_error: String) -> (r: Result<
    PaymentId,
    FiberError,
>)
    ensures
        spec_send_accepted(outcome) ==> r is Ok,
        !spec_send_accepted(outcome) ==> (r matches Err(FiberError::PaymentFailed(m)) && m@
            == failed_error@),
{
    match outcome {
        SendPaymentOutcome::Success => Ok(PaymentId::new()),
        SendPaymentOutcome::Inflight => Ok(PaymentId::new()),
        SendPaymentOutcome::Created => Ok(PaymentId::new()),
        SendPaymentOutcome::Failed => Err(FiberError::PaymentFailed(failed_error)),
    }
}

/// The encoded parameters of a `new_invoice` RPC call: the amount, the
/// expiry and the final expiry delta as `0x`-prefixed hex, and the
/// payment hash as `0x`-prefixed hex bytes.
#[derive(Debug)]
pub struct NewInvoiceParams {
    pub amount: String,
    pub currency: Currency,
    pub payment_hash: String,
    pub expiry: String,
    pub final_expiry_delta: String,
}

/// Encodes the parameters of a `new_invoice` call as the RPC interface
/// expects them.
pub fn encode_new_invoice_params(
    payment_hash: &PaymentHash,
    amount: u64,
    expiry_secs: u64,
    currency: Currency,
) -> (r: NewInvoiceParams)
    ensures
        r.amount@ == crate::encoding::spec_hex_u64(amount),
        r.currency == currency,
        r.payment_hash@ == seq!['0', 'x'] + crate::encoding::spec_hex_encode(payment_hash@),
        r.expiry@ == crate::encoding::spec_hex_u64(expiry_secs),
        r.final_expiry_delta@ == crate::encoding::spec_hex_u64(FINAL_EXPIRY_DELTA_MS),
{
    NewInvoiceParams {
        amount: crate::encoding::hex_of_u64(amount),
        currency,
        payment_hash: payment_hash.to_hex(),
        expiry: crate::encoding::hex_of_u64(expiry_secs),
        final_expiry_delta: crate::encoding::hex_of_u64(FINAL_EXPIRY_DELTA_MS),
    }
}

} // verus!
