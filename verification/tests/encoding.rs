//! Tests for the hex encodings and the RPC status mappings.

use fiber_protocol::encoding::{hex_of_u64, strip_hex_prefix};
use fiber_protocol::errors::FiberError;
use fiber_protocol::fiber::{
    encode_new_invoice_params, interpret_cancel_status, interpret_send_outcome,
    map_invoice_status, CkbInvoiceStatus, Currency, PaymentStatus, SendPaymentOutcome,
    FINAL_EXPIRY_DELTA_MS,
};
use fiber_protocol::payment::Preimage;

#[test]
fn hex_of_u64_matches_reference_formatting() {
    assert_eq!(hex_of_u64(0), "0x0");
    assert_eq!(hex_of_u64(1), "0x1");
    assert_eq!(hex_of_u64(1000), "0x3e8");
    assert_eq!(hex_of_u64(9_600_000), "0x927c00");
    assert_eq!(hex_of_u64(u64::MAX), format!("0x{:x}", u64::MAX));
    for v in [2u64, 15, 16, 255, 256, 100_000, 123_456_789] {
        assert_eq!(hex_of_u64(v), format!("0x{:x}", v));
    }
}

#[test]
fn strip_hex_prefix_behaviour() {
    assert_eq!(strip_hex_prefix("0xabcd"), "abcd");
    assert_eq!(strip_hex_prefix("abcd"), "abcd");
    assert_eq!(strip_hex_prefix("0x"), "");
    assert_eq!(strip_hex_prefix("x0abcd"), "x0abcd");
}

#[test]
fn invoice_status_mapping() {
    assert_eq!(map_invoice_status(CkbInvoiceStatus::Open), PaymentStatus::Pending);
    assert_eq!(map_invoice_status(CkbInvoiceStatus::Received), PaymentStatus::Held);
    assert_eq!(map_invoice_status(CkbInvoiceStatus::Paid), PaymentStatus::Settled);
    assert_eq!(map_invoice_status(CkbInvoiceStatus::Cancelled), PaymentStatus::Cancelled);
    assert_eq!(map_invoice_status(CkbInvoiceStatus::Expired), PaymentStatus::Cancelled);
}

#[test]
fn cancel_status_interpretation() {
    assert!(interpret_cancel_status(Some(CkbInvoiceStatus::Cancelled)).is_ok());
    assert!(interpret_cancel_status(None).is_ok());
    assert!(interpret_cancel_status(Some(CkbInvoiceStatus::Open)).is_ok());
    assert!(matches!(
        interpret_cancel_status(Some(CkbInvoiceStatus::Paid)),
        Err(FiberError::AlreadySettled)
    ));
}

#[test]
fn send_payment_interpretation() {
    assert!(interpret_send_outcome(SendPaymentOutcome::Success, String::new()).is_ok());
    assert!(interpret_send_outcome(SendPaymentOutcome::Inflight, String::new()).is_ok());
    assert!(interpret_send_outcome(SendPaymentOutcome::Created, String::new()).is_ok());
    let failed = interpret_send_outcome(SendPaymentOutcome::Failed, "no route".to_string());
    match failed {
        Err(FiberError::PaymentFailed(msg)) => assert_eq!(msg, "no route"),
        _ => panic!("failure report expected"),
    }
}

#[test]
fn new_invoice_params_encoding() {
    let preimage = Preimage::from_bytes(vec![0xabu8; 32]);
    let hash = preimage.payment_hash();
    let params = encode_new_invoice_params(&hash, 1000, 86400, Currency::Fibt);

    assert_eq!(params.amount, "0x3e8");
    assert_eq!(params.expiry, "0x15180");
    assert_eq!(
        params.final_expiry_delta,
        format!("0x{:x}", FINAL_EXPIRY_DELTA_MS)
    );
    assert_eq!(params.payment_hash, hash.to_hex());
    assert_eq!(params.currency, Currency::Fibt);
    assert_eq!(params.currency.label(), "Fibt");
    assert_eq!(Currency::Fibb.label(), "Fibb");
    assert_eq!(Currency::Fibd.label(), "Fibd");
}
