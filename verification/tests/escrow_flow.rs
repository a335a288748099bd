//! End-to-end tests of the escrow order engine.

use fiber_protocol::errors::EscrowError;
use fiber_protocol::escrow::{
    DisputeOutcome, DisputeResolution, EscrowEngine, OrderStatus, ProductStatus,
};
use fiber_protocol::fiber::PaymentStatus;
use fiber_protocol::payment::Preimage;

struct Market {
    engine: EscrowEngine,
    seller: u128,
    buyer: u128,
}

fn market_with_product(price: u64, title: &str) -> (Market, u128) {
    let mut engine = EscrowEngine::new(0);
    let seller = engine.register_user("seller".to_string()).unwrap();
    let buyer = engine.register_user("buyer".to_string()).unwrap();
    engine.register_user("arbiter".to_string()).unwrap();
    let product_id = engine
        .create_product(seller, title.to_string(), "test listing".to_string(), price)
        .unwrap();
    (Market { engine, seller, buyer }, product_id)
}

#[test]
fn test_escrow_happy_path() {
    let (mut m, product_id) = market_with_product(1000, "Test Widget");

    let buyer_preimage = Preimage::random();
    let preimage_hex = buyer_preimage.to_hex();
    let created = m
        .engine
        .create_order(m.buyer, product_id, Preimage::from_hex(&preimage_hex).unwrap())
        .unwrap();
    assert_eq!(created.amount, 1000);
    assert_eq!(
        m.engine.get_product(product_id).unwrap().status,
        ProductStatus::Sold
    );

    let invoice_string = format!("test_invoice_{}", created.payment_hash.to_hex());
    m.engine
        .submit_invoice(created.order_id, m.seller, invoice_string.clone())
        .unwrap();
    assert_eq!(
        m.engine
            .get_order(created.order_id)
            .unwrap()
            .invoice_string
            .as_ref()
            .unwrap(),
        &invoice_string
    );

    m.engine.pay_order(created.order_id, m.buyer, None).unwrap();
    assert_eq!(m.engine.get_order(created.order_id).unwrap().status, OrderStatus::Funded);

    m.engine.ship_order(created.order_id, m.seller).unwrap();
    assert_eq!(m.engine.get_order(created.order_id).unwrap().status, OrderStatus::Shipped);

    let settle = m.engine.confirm_order(created.order_id, m.buyer).unwrap();
    assert_eq!(m.engine.get_order(created.order_id).unwrap().status, OrderStatus::Completed);

    assert_eq!(settle.preimage.as_bytes(), buyer_preimage.as_bytes());
    assert!(settle.payment_hash.verify(&settle.preimage));
}

#[test]
fn test_escrow_dispute_refund_to_buyer() {
    let (mut m, product_id) = market_with_product(500, "Disputed Widget");

    let buyer_preimage = Preimage::random();
    let created = m
        .engine
        .create_order(m.buyer, product_id, buyer_preimage)
        .unwrap();

    let invoice_string = format!("test_invoice_{}", created.payment_hash.to_hex());
    m.engine
        .submit_invoice(created.order_id, m.seller, invoice_string)
        .unwrap();

    m.engine.pay_order(created.order_id, m.buyer, None).unwrap();

    m.engine
        .dispute_order(created.order_id, m.buyer, "Seller is not responding".to_string())
        .unwrap();
    assert_eq!(m.engine.get_order(created.order_id).unwrap().status, OrderStatus::Disputed);

    let disputes = m.engine.list_disputed_orders();
    assert!(disputes.contains(&created.order_id));

    let outcome = m
        .engine
        .resolve_dispute(created.order_id, DisputeResolution::ToBuyer)
        .unwrap();
    match outcome {
        DisputeOutcome::Refund(hash) => {
            assert_eq!(hash.as_bytes(), created.payment_hash.as_bytes());
        }
        DisputeOutcome::Settle(_) => panic!("refund expected, not settlement"),
    }

    let order = m.engine.get_order(created.order_id).unwrap();
    assert_eq!(order.status, OrderStatus::Refunded);
    assert_eq!(
        order.dispute.as_ref().unwrap().resolution,
        Some(DisputeResolution::ToBuyer)
    );
    assert_eq!(
        m.engine.get_product(product_id).unwrap().status,
        ProductStatus::Available
    );
}

#[test]
fn test_escrow_dispute_resolved_to_seller() {
    let (mut m, product_id) = market_with_product(600, "Seller Wins Widget");

    let buyer_preimage = Preimage::random();
    let preimage_bytes = buyer_preimage.as_bytes().clone();
    let created = m
        .engine
        .create_order(m.buyer, product_id, buyer_preimage)
        .unwrap();

    let invoice_string = format!("test_invoice_{}", created.payment_hash.to_hex());
    m.engine
        .submit_invoice(created.order_id, m.seller, invoice_string)
        .unwrap();

    m.engine.pay_order(created.order_id, m.buyer, None).unwrap();
    m.engine.ship_order(created.order_id, m.seller).unwrap();
    m.engine
        .dispute_order(created.order_id, m.buyer, "Item not as described".to_string())
        .unwrap();

    let confirm = m.engine.confirm_order(created.order_id, m.buyer);
    assert!(matches!(confirm, Err(EscrowError::WrongOrderStatus)));

    let outcome = m
        .engine
        .resolve_dispute(created.order_id, DisputeResolution::ToSeller)
        .unwrap();
    match outcome {
        DisputeOutcome::Settle(ins) => {
            assert_eq!(ins.preimage.as_bytes(), &preimage_bytes);
            assert!(ins.payment_hash.verify(&ins.preimage));
        }
        DisputeOutcome::Refund(_) => panic!("settlement expected, not refund"),
    }

    let order = m.engine.get_order(created.order_id).unwrap();
    assert_eq!(order.status, OrderStatus::Completed);
    assert_eq!(
        order.dispute.as_ref().unwrap().resolution,
        Some(DisputeResolution::ToSeller)
    );
}

#[test]
fn test_escrow_order_timeout() {
    let (mut m, product_id) = market_with_product(750, "Timeout Widget");

    let buyer_preimage = Preimage::random();
    let preimage_bytes = buyer_preimage.as_bytes().clone();
    let created = m
        .engine
        .create_order(m.buyer, product_id, buyer_preimage)
        .unwrap();

    let invoice_string = format!("test_invoice_{}", created.payment_hash.to_hex());
    m.engine
        .submit_invoice(created.order_id, m.seller, invoice_string)
        .unwrap();

    m.engine.pay_order(created.order_id, m.buyer, None).unwrap();
    m.engine.ship_order(created.order_id, m.seller).unwrap();

    let expired = m.engine.tick(90000);
    assert!(expired.iter().any(|e| e.order_id == created.order_id));

    let order = m.engine.get_order(created.order_id).unwrap();
    assert_eq!(order.status, OrderStatus::Completed);

    let entry = expired.iter().find(|e| e.order_id == created.order_id).unwrap();
    assert_eq!(entry.preimage.as_bytes(), &preimage_bytes);
    assert!(entry.payment_hash.verify(&entry.preimage));
}

#[test]
fn tick_before_expiry_completes_nothing() {
    let (mut m, product_id) = market_with_product(100, "Patient Widget");
    let created = m
        .engine
        .create_order(m.buyer, product_id, Preimage::random())
        .unwrap();
    m.engine
        .submit_invoice(created.order_id, m.seller, "inv".to_string())
        .unwrap();
    m.engine.pay_order(created.order_id, m.buyer, None).unwrap();
    m.engine.ship_order(created.order_id, m.seller).unwrap();

    let expired = m.engine.tick(3600);
    assert!(expired.is_empty());
    assert_eq!(m.engine.get_order(created.order_id).unwrap().status, OrderStatus::Shipped);
}

#[test]
fn self_purchase_is_rejected() {
    let (mut m, product_id) = market_with_product(100, "Own Widget");
    let result = m.engine.create_order(m.seller, product_id, Preimage::random());
    assert!(matches!(result, Err(EscrowError::SelfPurchase)));
}

#[test]
fn sold_product_cannot_be_ordered_twice() {
    let (mut m, product_id) = market_with_product(100, "Unique Widget");
    m.engine
        .create_order(m.buyer, product_id, Preimage::random())
        .unwrap();
    let again = m.engine.create_order(m.buyer, product_id, Preimage::random());
    assert!(matches!(again, Err(EscrowError::ProductNotAvailable)));
}

#[test]
fn escrow_authorization_checks() {
    let (mut m, product_id) = market_with_product(100, "Guarded Widget");
    let created = m
        .engine
        .create_order(m.buyer, product_id, Preimage::random())
        .unwrap();

    let wrong_submit = m
        .engine
        .submit_invoice(created.order_id, m.buyer, "inv".to_string());
    assert!(matches!(wrong_submit, Err(EscrowError::UnauthorizedCaller)));

    m.engine
        .submit_invoice(created.order_id, m.seller, "inv".to_string())
        .unwrap();

    let wrong_pay = m.engine.pay_order(created.order_id, m.seller, None);
    assert!(matches!(wrong_pay, Err(EscrowError::UnauthorizedCaller)));

    m.engine.pay_order(created.order_id, m.buyer, None).unwrap();

    let wrong_ship = m.engine.ship_order(created.order_id, m.buyer);
    assert!(matches!(wrong_ship, Err(EscrowError::UnauthorizedCaller)));

    let early_confirm = m.engine.confirm_order(created.order_id, m.buyer);
    assert!(matches!(early_confirm, Err(EscrowError::WrongOrderStatus)));

    let early_resolve = m
        .engine
        .resolve_dispute(created.order_id, DisputeResolution::ToSeller);
    assert!(matches!(early_resolve, Err(EscrowError::WrongOrderStatus)));
}

#[test]
fn pay_requires_an_invoice_and_a_held_payment() {
    let (mut m, product_id) = market_with_product(100, "Invoice Widget");
    let created = m
        .engine
        .create_order(m.buyer, product_id, Preimage::random())
        .unwrap();

    let no_invoice = m.engine.pay_order(created.order_id, m.buyer, None);
    assert!(matches!(no_invoice, Err(EscrowError::NoInvoiceSubmitted)));

    m.engine
        .submit_invoice(created.order_id, m.seller, "inv".to_string())
        .unwrap();

    let cancelled = m
        .engine
        .pay_order(created.order_id, m.buyer, Some(PaymentStatus::Cancelled));
    assert!(matches!(cancelled, Err(EscrowError::PaymentCancelled)));

    let pending = m
        .engine
        .pay_order(created.order_id, m.buyer, Some(PaymentStatus::Pending));
    assert!(matches!(pending, Err(EscrowError::PaymentNotReceived)));

    m.engine
        .pay_order(created.order_id, m.buyer, Some(PaymentStatus::Held))
        .unwrap();
    assert_eq!(m.engine.get_order(created.order_id).unwrap().status, OrderStatus::Funded);
}

#[test]
fn empty_invoice_is_rejected() {
    let (mut m, product_id) = market_with_product(100, "Empty Invoice Widget");
    let created = m
        .engine
        .create_order(m.buyer, product_id, Preimage::random())
        .unwrap();
    let empty = m
        .engine
        .submit_invoice(created.order_id, m.seller, String::new());
    assert!(matches!(empty, Err(EscrowError::NoInvoiceSubmitted)));

    let blank = m
        .engine
        .submit_invoice(created.order_id, m.seller, "  \t\r\n ".to_string());
    assert!(matches!(blank, Err(EscrowError::NoInvoiceSubmitted)));

    m.engine
        .submit_invoice(created.order_id, m.seller, "  inv  ".to_string())
        .unwrap();
}

#[test]
fn unknown_ids_are_reported() {
    let mut engine = EscrowEngine::new(0);
    let buyer = engine.register_user("buyer".to_string()).unwrap();
    assert!(matches!(
        engine.create_order(buyer, 12345, Preimage::random()),
        Err(EscrowError::ProductNotFound)
    ));
    assert!(matches!(
        engine.ship_order(999, buyer),
        Err(EscrowError::OrderNotFound)
    ));
    assert!(engine.get_order(999).is_none());
    assert!(engine.get_product(999).is_none());
    assert!(engine.get_user(999).is_none());
}

#[test]
fn available_product_listing_tracks_status() {
    let (mut m, product_id) = market_with_product(100, "Listed Widget");
    assert!(m.engine.list_available_products().contains(&product_id));
    m.engine
        .create_order(m.buyer, product_id, Preimage::random())
        .unwrap();
    assert!(!m.engine.list_available_products().contains(&product_id));
}
