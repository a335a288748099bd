//! Tests for the in-memory mock of the hold-invoice capability.

use fiber_protocol::errors::FiberError;
use fiber_protocol::fiber::PaymentStatus;
use fiber_protocol::mock::MockFiberClient;
use fiber_protocol::payment::Preimage;

#[test]
fn test_hold_invoice_lifecycle() {
    let mut client = MockFiberClient::new(10000);

    let preimage = Preimage::random();
    let payment_hash = preimage.payment_hash();

    let invoice = client.create_hold_invoice(&payment_hash, 1000, 3600).unwrap();

    assert_eq!(invoice.amount, 1000);

    let status = client.get_payment_status(&payment_hash).unwrap();
    assert_eq!(status, PaymentStatus::Pending);
}

#[test]
fn test_pay_hold_invoice() {
    let mut client = MockFiberClient::new(10000);

    let preimage = Preimage::random();
    let payment_hash = preimage.payment_hash();

    let invoice = client.create_hold_invoice(&payment_hash, 1000, 3600).unwrap();

    client.pay_hold_invoice(&invoice).unwrap();

    assert_eq!(client.balance(), 9000);

    let status = client.get_payment_status(&payment_hash).unwrap();
    assert_eq!(status, PaymentStatus::Held);
}

#[test]
fn test_settle_with_correct_preimage() {
    let mut client = MockFiberClient::new(10000);

    let preimage = Preimage::random();
    let payment_hash = preimage.payment_hash();

    let invoice = client.create_hold_invoice(&payment_hash, 1000, 3600).unwrap();

    client.pay_hold_invoice(&invoice).unwrap();
    assert_eq!(client.balance(), 9000);

    client.settle_invoice(&payment_hash, &preimage).unwrap();

    assert_eq!(client.balance(), 10000);

    let status = client.get_payment_status(&payment_hash).unwrap();
    assert_eq!(status, PaymentStatus::Settled);
}

#[test]
fn test_settle_with_wrong_preimage_fails() {
    let mut client = MockFiberClient::new(10000);

    let preimage = Preimage::random();
    let wrong_preimage = Preimage::random();
    let payment_hash = preimage.payment_hash();

    let invoice = client.create_hold_invoice(&payment_hash, 1000, 3600).unwrap();

    client.pay_hold_invoice(&invoice).unwrap();

    let result = client.settle_invoice(&payment_hash, &wrong_preimage);
    assert!(matches!(result, Err(FiberError::InvalidPreimage)));
}

#[test]
fn test_cancel_invoice() {
    let mut client = MockFiberClient::new(10000);

    let preimage = Preimage::random();
    let payment_hash = preimage.payment_hash();

    let invoice = client.create_hold_invoice(&payment_hash, 1000, 3600).unwrap();

    client.pay_hold_invoice(&invoice).unwrap();
    assert_eq!(client.balance(), 9000);

    client.cancel_invoice(&payment_hash).unwrap();

    let status = client.get_payment_status(&payment_hash).unwrap();
    assert_eq!(status, PaymentStatus::Cancelled);
}

#[test]
fn test_insufficient_funds() {
    let mut client = MockFiberClient::new(500);

    let preimage = Preimage::random();
    let payment_hash = preimage.payment_hash();

    let invoice = client.create_hold_invoice(&payment_hash, 1000, 3600).unwrap();

    let result = client.pay_hold_invoice(&invoice);
    assert!(matches!(result, Err(FiberError::InsufficientFunds)));
}

#[test]
fn test_double_settle_fails() {
    let mut client = MockFiberClient::new(10000);

    let preimage = Preimage::random();
    let payment_hash = preimage.payment_hash();

    let invoice = client.create_hold_invoice(&payment_hash, 1000, 3600).unwrap();

    client.pay_hold_invoice(&invoice).unwrap();
    client.settle_invoice(&payment_hash, &preimage).unwrap();

    let result = client.settle_invoice(&payment_hash, &preimage);
    assert!(matches!(result, Err(FiberError::AlreadySettled)));
}

#[test]
fn settle_unknown_invoice_fails() {
    let mut client = MockFiberClient::new(10000);
    let preimage = Preimage::random();
    let payment_hash = preimage.payment_hash();

    let result = client.settle_invoice(&payment_hash, &preimage);
    assert!(matches!(result, Err(FiberError::InvoiceNotFound)));
}

#[test]
fn settle_pending_invoice_fails() {
    let mut client = MockFiberClient::new(10000);
    let preimage = Preimage::random();
    let payment_hash = preimage.payment_hash();

    client.create_hold_invoice(&payment_hash, 1000, 3600).unwrap();
    let result = client.settle_invoice(&payment_hash, &preimage);
    assert!(matches!(result, Err(FiberError::PaymentFailed(_))));
}

#[test]
fn double_cancel_fails() {
    let mut client = MockFiberClient::new(10000);
    let preimage = Preimage::random();
    let payment_hash = preimage.payment_hash();

    client.create_hold_invoice(&payment_hash, 1000, 3600).unwrap();
    client.cancel_invoice(&payment_hash).unwrap();
    let result = client.cancel_invoice(&payment_hash);
    assert!(matches!(result, Err(FiberError::AlreadyCancelled)));
}

#[test]
fn expired_invoice_cannot_be_paid() {
    let mut client = MockFiberClient::new(10000);
    let preimage = Preimage::random();
    let payment_hash = preimage.payment_hash();

    let invoice = client.create_hold_invoice(&payment_hash, 1000, 60).unwrap();
    client.advance_time(61);

    let result = client.pay_hold_invoice(&invoice);
    assert!(matches!(result, Err(FiberError::Expired)));
    assert_eq!(client.balance(), 10000);

    let status = client.get_payment_status(&payment_hash).unwrap();
    assert_eq!(status, PaymentStatus::Cancelled);
}

#[test]
fn mock_invoice_string_names_the_hash() {
    let mut client = MockFiberClient::new(10000);
    let preimage = Preimage::random();
    let payment_hash = preimage.payment_hash();

    let invoice = client.create_hold_invoice(&payment_hash, 1000, 3600).unwrap();
    assert_eq!(
        invoice.invoice_string,
        format!("mock_invoice_{}", hex::encode(payment_hash.as_bytes()))
    );
}

#[test]
fn register_preimage_and_list_invoices() {
    let mut client = MockFiberClient::new(10000);
    let preimage = Preimage::random();
    let payment_hash = preimage.payment_hash();
    client.register_preimage(preimage);

    client.create_hold_invoice(&payment_hash, 250, 3600).unwrap();
    let all = client.get_all_invoices();
    assert_eq!(all.len(), 1);
    assert_eq!(all[0].0, payment_hash);
    assert_eq!(all[0].1, PaymentStatus::Pending);
}

#[test]
fn adjust_balance_saturates() {
    let mut client = MockFiberClient::new(100);
    client.adjust_balance(-250);
    assert_eq!(client.balance(), 0);
    client.adjust_balance(50);
    assert_eq!(client.balance(), 50);
    client.adjust_balance(i64::MAX);
    client.adjust_balance(i64::MAX);
    client.adjust_balance(i64::MAX);
    assert_eq!(client.balance(), u64::MAX);
}
