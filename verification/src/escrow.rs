//! The escrow order engine.
//!
//! The buyer generates a preimage and hands it to the escrow on order
//! creation; the escrow computes the payment hash, has the seller's
//! node create a hold invoice against it, and can therefore settle
//! (buyer confirmation, timeout after shipping, dispute to the seller)
//! or refund (dispute to the buyer) without further buyer interaction.
//!
//! The engine holds the state and the rules; the caller performs the
//! hold-invoice I/O that the returned instructions call for, and runs
//! the payment-status polling loop.

use vstd::prelude::*;

use crate::bytes::clone_bytes;
use crate::errors::EscrowError;
use crate::fiber::PaymentStatus;
use crate::hashing::ckb_hash_of;
use crate::payment::{spec_hash_matches, PaymentHash, Preimage};
use crate::protocol::fresh_uuid_u128;

verus! {

/// The default order expiry: 24 hours, in seconds.
pub const ORDER_EXPIRY_SECS: i64 = 86400;

/// A registered user.
#[derive(Debug)]
pub struct User {
    /// The user identifier.
    pub id: u128,
    /// The chosen name.
    pub username: String,
}

/// The lifecycle status of a product.
#[derive(Clone, Copy, Debug, PartialEq, Eq, Structural)]
pub enum ProductStatus {
    /// Listed and purchasable.
    Available,
    /// An order exists for it.
    Sold,
}

/// A listed product.
#[derive(Debug)]
pub struct Product {
    /// The product identifier.
    pub id: u128,
    /// The seller's user identifier.
    pub seller_id: u128,
    /// The title.
    pub title: String,
    /// The description.
    pub description: String,
    /// The price in shannons.
    pub price: u64,
    /// The lifecycle status.
    pub status: ProductStatus,
    /// When the product was listed, in seconds.
    pub created_at: i64,
}

/// The lifecycle status of an order.
#[derive(Clone, Copy, Debug, PartialEq, Eq, Structural)]
pub enum OrderStatus {
    /// Created; the invoice has not been paid yet.
    WaitingPayment,
    /// The payment is held on the seller's node.
    Funded,
    /// The seller shipped the goods.
    Shipped,
    /// Settled to the seller; terminal.
    Completed,
    /// The buyer raised a dispute.
    Disputed,
    /// Refunded to the buyer; terminal.
    Refunded,
}

/// How an arbiter resolved a dispute.
#[derive(Clone, Copy, Debug, PartialEq, Eq, Structural)]
pub enum DisputeResolution {
    /// Settle to the seller.
    ToSeller,
    /// Refund the buyer.
    ToBuyer,
}

/// A dispute raised by the buyer.
#[derive(Debug)]
pub struct Dispute {
    /// The buyer's stated reason.
    pub reason: String,
    /// When the dispute was raised, in seconds.
    pub created_at: i64,
    /// The arbiter's resolution, once made.
    pub resolution: Option<DisputeResolution>,
}

/// An escrow order.
#[derive(Debug)]
pub struct Order {
    /// The order identifier.
    pub id: u128,
    /// The purchased product.
    pub product_id: u128,
    /// A snapshot of the product title.
    pub product_title: String,
    /// The seller's user identifier.
    pub seller_id: u128,
    /// The buyer's user identifier.
    pub buyer_id: u128,
    /// The amount in shannons.
    pub amount: u64,
    /// The payment hash, derived from the buyer's preimage.
    pub payment_hash: PaymentHash,
    /// The hold invoice string from the seller's node, once known.
    pub invoice_string: Option<String>,
    /// The buyer's preimage, escrowed from creation until settlement.
    pub preimage: Preimage,
    /// The lifecycle status.
    pub status: OrderStatus,
    /// When the order was created, in seconds.
    pub created_at: i64,
    /// When a shipped order auto-completes, in seconds.
    pub expires_at: i64,
    /// The dispute, if the buyer raised one.
    pub dispute: Option<Dispute>,
}

/// The allowed order-status transitions: pay funds a waiting order, a
/// funded order ships or is disputed, a shipped order completes or is
/// disputed, and a dispute resolves to completion or refund.
pub open spec fn spec_order_edge(a: OrderStatus, b: OrderStatus) -> bool {
    ||| (a == OrderStatus::WaitingPayment && b == OrderStatus::Funded)
    ||| (a == OrderStatus::Funded && b == OrderStatus::Shipped)
    ||| (a == OrderStatus::Funded && b == OrderStatus::Disputed)
    ||| (a == OrderStatus::Shipped && b == OrderStatus::Completed)
    ||| (a == OrderStatus::Shipped && b == OrderStatus::Disputed)
    ||| (a == OrderStatus::Disputed && b == OrderStatus::Completed)
    ||| (a == OrderStatus::Disputed && b == OrderStatus::Refunded)
}

/// Whether an order status is terminal.
pub open spec fn spec_terminal(s: OrderStatus) -> bool {
    s == OrderStatus::Completed || s == OrderStatus::Refunded
}

/// Escrow monotonicity: the terminal statuses have no outgoing edges;
/// once an order is completed or refunded, no transition leaves it.
pub proof fn lemma_terminal_no_edges(s: OrderStatus, t: OrderStatus)
    ensures
        spec_terminal(s) ==> !spec_order_edge(s, t),
{
}

/// Whether the store holds an element with identifier `id`.
pub open spec fn spec_has_user(s: Seq<User>, id: u128) -> bool {
    exists|i: int| 0 <= i < s.len() && s[i].id == id
}

/// Whether the store holds a product with identifier `id`.
pub open spec fn spec_has_product(s: Seq<Product>, id: u128) -> bool {
    exists|i: int| 0 <= i < s.len() && s[i].id == id
}

/// The index of the product with identifier `id`.
pub open spec fn spec_product_idx(s: Seq<Product>, id: u128) -> int {
    choose|i: int| 0 <= i < s.len() && s[i].id == id
}

/// The product with identifier `id`.
pub open spec fn spec_product(s: Seq<Product>, id: u128) -> Product {
    s[spec_product_idx(s, id)]
}

/// Whether the store holds an order with identifier `id`.
pub open spec fn spec_has_order(s: Seq<Order>, id: u128) -> bool {
    exists|i: int| 0 <= i < s.len() && s[i].id == id
}

/// The index of the order with identifier `id`.
pub open spec fn spec_order_idx(s: Seq<Order>, id: u128) -> int {
    choose|i: int| 0 <= i < s.len() && s[i].id == id
}

/// The order with identifier `id`.
pub open spec fn spec_order(s: Seq<Order>, id: u128) -> Order {
    s[spec_order_idx(s, id)]
}

/// Preimage escrow availability: an order always carries a preimage
/// whose hash is its payment hash.
pub open spec fn spec_order_wf(o: Order) -> bool {
    spec_hash_matches(o.payment_hash@, o.preimage@)
}

/// Identifier uniqueness among users.
pub open spec fn spec_unique_users(s: Seq<User>) -> bool {
    forall|i: int, j: int| 0 <= i < j < s.len() ==> s[i].id != s[j].id
}

/// Identifier uniqueness among products.
pub open spec fn spec_unique_products(s: Seq<Product>) -> bool {
    forall|i: int, j: int| 0 <= i < j < s.len() ==> s[i].id != s[j].id
}

/// Identifier uniqueness and per-order well-formedness of the order
/// store.
pub open spec fn spec_orders_wf(s: Seq<Order>) -> bool {
    &&& forall|i: int, j: int| 0 <= i < j < s.len() ==> s[i].id != s[j].id
    &&& forall|i: int| 0 <= i < s.len() ==> spec_order_wf(#[trigger] s[i])
}

/// What the escrow hands the caller to settle an invoice: the payment
/// hash and the escrowed preimage behind it.
#[derive(Debug)]
pub struct SettleInstruction {
    /// The payment hash of the invoice to settle.
    pub payment_hash: PaymentHash,
    /// The preimage that settles it.
    pub preimage: Preimage,
}

/// The hold-invoice step a dispute resolution calls for.
pub enum DisputeOutcome {
    /// Resolved to the seller: settle the invoice with the preimage.
    Settle(SettleInstruction),
    /// Resolved to the buyer: cancel the invoice with this hash.
    Refund(PaymentHash),
}

/// An order auto-completed by the clock, with what settles its invoice.
#[derive(Debug)]
pub struct ExpiredSettlement {
    /// The order that timed out.
    pub order_id: u128,
    /// The payment hash of its invoice.
    pub payment_hash: PaymentHash,
    /// The escrowed preimage that settles it.
    pub preimage: Preimage,
}

/// Whether `e` reports a shipped order of `orders` that expired by
/// `now`, with that order's payment hash and preimage.
pub open spec fn spec_expired_match(orders: Seq<Order>, now: i64, e: ExpiredSettlement) -> bool {
    exists|k: int|
        0 <= k < orders.len() && (#[trigger] orders[k]).status == OrderStatus::Shipped
            && orders[k].expires_at <= now && e.order_id == orders[k].id && e.payment_hash@
            == orders[k].payment_hash@ && e.preimage@ == orders[k].preimage@
}

/// Whether the report lists an entry for order `id`.
pub open spec fn spec_listed(r: Seq<ExpiredSettlement>, id: u128) -> bool {
    exists|j: int| 0 <= j < r.len() && (#[trigger] r[j]).order_id == id
}

/// Whether a report entry names one of the first `upto` orders.
pub open spec fn spec_listed_from(orders: Seq<Order>, upto: int, e: ExpiredSettlement) -> bool {
    exists|k: int| 0 <= k < upto && (#[trigger] orders[k]).id == e.order_id
}

/// What `create_order` reports back to the buyer.
#[derive(Debug)]
pub struct OrderCreated {
    /// The fresh order identifier.
    pub order_id: u128,
    /// The payment hash the invoice must be bound to.
    pub payment_hash: PaymentHash,
    /// The amount in shannons.
    pub amount: u64,
    /// When the order expires, in seconds.
    pub expires_at: i64,
}

/// The escrow engine: users, products, orders, and a simulated clock.
pub struct EscrowEngine {
    users: Vec<User>,
    products: Vec<Product>,
    orders: Vec<Order>,
    now: i64,
}

impl EscrowEngine {
    /// The registered users.
    pub closed spec fn spec_users(&self) -> Seq<User> {
        self.users@
    }

    /// The listed products.
    pub closed spec fn spec_products(&self) -> Seq<Product> {
        self.products@
    }

    /// The orders.
    pub closed spec fn spec_orders(&self) -> Seq<Order> {
        self.orders@
    }

    /// The current time, in seconds.
    pub closed spec fn spec_now(&self) -> i64 {
        self.now
    }

    /// Well-formedness: unique identifiers in each store, and every
    /// order escrows a preimage matching its payment hash.
    pub open spec fn wf(&self) -> bool {
        &&& spec_unique_users(self.spec_users())
        &&& spec_unique_products(self.spec_products())
        &&& spec_orders_wf(self.spec_orders())
    }

    /// Creates an engine with an empty state at the given time.
    pub fn new(now: i64) -> (r: Self)
        ensures
            r.wf(),
            r.spec_users().len() == 0,
            r.spec_products().len() == 0,
            r.spec_orders().len() == 0,
            r.spec_now() == now,
    {
        EscrowEngine { users: Vec::new(), products: Vec::new(), orders: Vec::new(), now }
    }

    /// Finds the index of a user.
    fn find_user(&self, id: u128) -> (r: Option<usize>)
        ensures
            match r {
                Some(i) => i < self.spec_users().len() && self.spec_users()[i as int].id == id,
                None => !spec_has_user(self.spec_users(), id),
            },
    {
        let mut i: usize = 0;
        while i < self.users.len()
            invariant
                i <= self.spec_users().len(),
                forall|j: int| 0 <= j < i ==> self.spec_users()[j].id != id,
            decreases self.spec_users().len() - i,
        {
            if self.users[i].id == id {
                return Some(i);
            }
            i = i + 1;
        }
        None
    }

    /// Finds the index of a product.
    fn find_product(&self, id: u128) -> (r: Option<usize>)
        ensures
            match r {
                Some(i) => i < self.spec_products().len() && self.spec_products()[i as int].id
                    == id,
                None => !spec_has_product(self.spec_products(), id),
            },
    {
        let mut i: usize = 0;
        while i < self.products.len()
            invariant
                i <= self.spec_products().len(),
                forall|j: int| 0 <= j < i ==> self.spec_products()[j].id != id,
            decreases self.spec_products().len() - i,
        {
            if self.products[i].id == id {
                return Some(i);
            }
            i = i + 1;
        }
        None
    }

    /// Finds the index of an order.
    fn find_order(&self, id: u128) -> (r: Option<usize>)
        ensures
            match r {
                Some(i) => i < self.spec_orders().len() && self.spec_orders()[i as int].id == id,
                None => !spec_has_order(self.spec_orders(), id),
            },
    {
        let mut i: usize = 0;
        while i < self.orders.len()
            invariant
                i <= self.spec_orders().len(),
                forall|j: int| 0 <= j < i ==> self.spec_orders()[j].id != id,
            decreases self.spec_orders().len() - i,
        {
            if self.orders[i].id == id {
                return Some(i);
            }
            i = i + 1;
        }
        None
    }

    /// In a well-formed store, any index holding product `id` is the
    /// one `spec_product_idx` denotes.
    proof fn lemma_product_idx_unique(&self, id: u128, i: int)
        requires
            self.wf(),
            0 <= i < self.spec_products().len(),
            self.spec_products()[i].id == id,
        ensures
            spec_has_product(self.spec_products(), id),
            spec_product_idx(self.spec_products(), id) == i,
    {
        assert(spec_has_product(self.spec_products(), id));
        let j = spec_product_idx(self.spec_products(), id);
        if i < j {
            assert(false);
        } else if j < i {
            assert(false);
        }
    }

    /// In a well-formed store, any index holding order `id` is the one
    /// `spec_order_idx` denotes.
    proof fn lemma_order_idx_unique(&self, id: u128, i: int)
        requires
            self.wf(),
            0 <= i < self.spec_orders().len(),
            self.spec_orders()[i].id == id,
        ensures
            spec_has_order(self.spec_orders(), id),
            spec_order_idx(self.spec_orders(), id) == i,
    {
        assert(spec_has_order(self.spec_orders(), id));
        let j = spec_order_idx(self.spec_orders(), id);
        if i < j {
            assert(false);
        } else if j < i {
            assert(false);
        }
    }

    /// Registers a user under a fresh random identifier. Fails only if
    /// the drawn identifier is already in use, which has negligible
    /// probability.
    pub fn register_user(&mut self, username: String) -> (r: Result<u128, EscrowError>)
        requires
            old(self).wf(),
        ensures
            final(self).wf(),
            r is Err ==> *final(self) == *old(self),
            r matches Ok(id) ==> final(self).spec_users() == old(self).spec_users().push(
                User { id, username },
            ) && final(self).spec_products() == old(self).spec_products() && final(self).spec_orders() == old(self).spec_orders() && final(self).spec_now() == old(
                self,
            ).spec_now(),
    {
        let id = fresh_uuid_u128();
        match self.find_user(id) {
            Some(_) => Err(EscrowError::IdInUse),
            None => {
                self.users.push(User { id, username });
                Ok(id)
            },
        }
    }

    /// Looks a user up by identifier.
    pub fn get_user(&self, id: u128) -> (r: Option<&User>)
        requires
            self.wf(),
        ensures
            (r is Some) == spec_has_user(self.spec_users(), id),
            r matches Some(u) ==> u.id == id,
    {
        let found = self.find_user(id);
        match found {
            Some(i) => Some(&self.users[i]),
            None => None,
        }
    }

    /// Lists a product under a fresh random identifier, available for
    /// purchase. Fails only on an identifier collision, which has
    /// negligible probability.
    pub fn create_product(
        &mut self,
        seller_id: u128,
        title: String,
        description: String,
        price: u64,
    ) -> (r: Result<u128, EscrowError>)
        requires
            old(self).wf(),
        ensures
            final(self).wf(),
            r is Err ==> *final(self) == *old(self),
            r matches Ok(id) ==> final(self).spec_products() == old(self).spec_products().push(
                Product {
                    id,
                    seller_id,
                    title,
                    description,
                    price,
                    status: ProductStatus::Available,
                    created_at: old(self).spec_now(),
                },
            ) && final(self).spec_users() == old(self).spec_users() && final(self).spec_orders()
                == old(self).spec_orders() && final(self).spec_now() == old(self).spec_now(),
    {
        let id = fresh_uuid_u128();
        match self.find_product(id) {
            Some(_) => Err(EscrowError::IdInUse),
            None => {
                self.products.push(
                    Product {
                        id,
                        seller_id,
                        title,
                        description,
                        price,
                        status: ProductStatus::Available,
                        created_at: self.now,
                    },
                );
                Ok(id)
            },
        }
    }

    /// Looks a product up by identifier.
    pub fn get_product(&self, id: u128) -> (r: Option<&Product>)
        requires
            self.wf(),
        ensures
            (r is Some) == spec_has_product(self.spec_products(), id),
            r matches Some(p) ==> *p == spec_product(self.spec_products(), id),
    {
        let found = self.find_product(id);
        match found {
            Some(i) => {
                proof {
                    self.lemma_product_idx_unique(id, i as int);
                }
                Some(&self.products[i])
            },
            None => None,
        }
    }

    /// Looks an order up by identifier.
    pub fn get_order(&self, id: u128) -> (r: Option<&Order>)
        requires
            self.wf(),
        ensures
            (r is Some) == spec_has_order(self.spec_orders(), id),
            r matches Some(o) ==> *o == spec_order(self.spec_orders(), id),
    {
        let found = self.find_order(id);
        match found {
            Some(i) => {
                proof {
                    self.lemma_order_idx_unique(id, i as int);
                }
                Some(&self.orders[i])
            },
            None => None,
        }
    }

    /// The identifiers of all available products.
    pub fn list_available_products(&self) -> (r: Vec<u128>)
        requires
            self.wf(),
        ensures
            forall|j: int|
                0 <= j < r@.len() ==> spec_has_product(self.spec_products(), #[trigger] r@[j])
                    && spec_product(self.spec_products(), r@[j]).status == ProductStatus::Available,
    {
        let mut r: Vec<u128> = Vec::new();
        let mut i: usize = 0;
        while i < self.products.len()
            invariant
                self.wf(),
                i <= self.spec_products().len(),
                forall|j: int|
                    0 <= j < r@.len() ==> spec_has_product(self.spec_products(), #[trigger] r@[j])
                        && spec_product(self.spec_products(), r@[j]).status
                        == ProductStatus::Available,
            decreases self.spec_products().len() - i,
        {
            if matches!(self.products[i].status, ProductStatus::Available) {
                proof {
                    self.lemma_product_idx_unique(self.products@[i as int].id, i as int);
                }
                r.push(self.products[i].id);
            }
            i = i + 1;
        }
        r
    }

    /// The identifiers of all disputed orders.
    pub fn list_disputed_orders(&self) -> (r: Vec<u128>)
        requires
            self.wf(),
        ensures
            forall|j: int|
                0 <= j < r@.len() ==> spec_has_order(self.spec_orders(), #[trigger] r@[j])
                    && spec_order(self.spec_orders(), r@[j]).status == OrderStatus::Disputed,
    {
        let mut r: Vec<u128> = Vec::new();
        let mut i: usize = 0;
        while i < self.orders.len()
            invariant
                self.wf(),
                i <= self.spec_orders().len(),
                forall|j: int|
                    0 <= j < r@.len() ==> spec_has_order(self.spec_orders(), #[trigger] r@[j])
                        && spec_order(self.spec_orders(), r@[j]).status == OrderStatus::Disputed,
            decreases self.spec_orders().len() - i,
        {
            if matches!(self.orders[i].status, OrderStatus::Disputed) {
                proof {
                    self.lemma_order_idx_unique(self.orders@[i as int].id, i as int);
                }
                r.push(self.orders[i].id);
            }
            i = i + 1;
        }
        r
    }

    /// Creates an order: checks that the product is available and that
    /// the buyer is not its seller, escrows the preimage, derives the
    /// payment hash from it, marks the product sold, and records the
    /// order as waiting for payment with a 24-hour expiry.
    pub fn create_order(&mut self, buyer_id: u128, product_id: u128, preimage: Preimage) -> (r:
        Result<OrderCreated, EscrowError>)
        requires
            old(self).wf(),
        ensures
            final(self).wf(),
            final(self).spec_now() == old(self).spec_now(),
            final(self).spec_users() == old(self).spec_users(),
            !spec_has_product(old(self).spec_products(), product_id) ==> (r matches Err(
                EscrowError::ProductNotFound,
            )) && *final(self) == *old(self),
            spec_has_product(old(self).spec_products(), product_id) ==> {
                let p = spec_product(old(self).spec_products(), product_id);
                if p.status != ProductStatus::Available {
                    (r matches Err(EscrowError::ProductNotAvailable)) && *final(self) == *old(
                        self,
                    )
                } else if p.seller_id == buyer_id {
                    (r matches Err(EscrowError::SelfPurchase)) && *final(self) == *old(self)
                } else if r is Err {
                    *final(self) == *old(self)
                } else {
                    &&& r matches Ok(info)
                    &&& info.payment_hash@ == ckb_hash_of(preimage@)
                    &&& info.amount == p.price
                    &&& final(self).spec_products() == old(self).spec_products().update(
                        spec_product_idx(old(self).spec_products(), product_id),
                        (Product { status: ProductStatus::Sold, ..p }),
                    )
                    &&& final(self).spec_orders().len() == old(self).spec_orders().len() + 1
                    &&& final(self).spec_orders().subrange(
                        0,
                        old(self).spec_orders().len() as int,
                    ) == old(self).spec_orders()
                    &&& {
                        let o = final(self).spec_orders().last();
                        &&& o.id == info.order_id
                        &&& o.product_id == product_id
                        &&& o.seller_id == p.seller_id
                        &&& o.buyer_id == buyer_id
                        &&& o.amount == p.price
                        &&& o.payment_hash@ == ckb_hash_of(preimage@)
                        &&& o.preimage@ == preimage@
                        &&& o.invoice_string is None
                        &&& o.status == OrderStatus::WaitingPayment
                        &&& o.created_at == old(self).spec_now()
                        &&& o.expires_at == info.expires_at
                        &&& o.dispute is None
                    }
                }
            },
    {
        let pi = match self.find_product(product_id) {
            None => {
                return Err(EscrowError::ProductNotFound);
            },
            Some(i) => i,
        };
        proof {
            self.lemma_product_idx_unique(product_id, pi as int);
        }
        if !matches!(self.products[pi].status, ProductStatus::Available) {
            return Err(EscrowError::ProductNotAvailable);
        }
        if self.products[pi].seller_id == buyer_id {
            return Err(EscrowError::SelfPurchase);
        }
        let order_id = fresh_uuid_u128();
        match self.find_order(order_id) {
            Some(_) => {
                return Err(EscrowError::IdInUse);
            },
            None => {},
        }
        let payment_hash = preimage.payment_hash();
        let expires_at: i64 = if self.now <= i64::MAX - ORDER_EXPIRY_SECS {
            self.now + ORDER_EXPIRY_SECS
        } else {
            i64::MAX
        };
        let mut product = self.products.remove(pi);
        product.status = ProductStatus::Sold;
        let title = product.title.clone();
        let seller_id = product.seller_id;
        let price = product.price;
        self.products.insert(pi, product);
        proof {
            assert(self.products@ =~= old(self).products@.update(pi as int, self.products@[pi as int]));
        }
        let info = OrderCreated {
            order_id,
            payment_hash: payment_hash.clone(),
            amount: price,
            expires_at,
        };
        let order = Order {
            id: order_id,
            product_id,
            product_title: title,
            seller_id,
            buyer_id,
            amount: price,
            payment_hash,
            invoice_string: None,
            preimage,
            status: OrderStatus::WaitingPayment,
            created_at: self.now,
            expires_at,
            dispute: None,
        };
        self.orders.push(order);
        proof {
            assert(self.orders@.subrange(0, old(self).orders@.len() as int) =~= old(self).orders@);
        }
        Ok(info)
    }

    /// Stores the hold invoice string for an order. Only the seller
    /// may submit it, only while the order waits for payment, and it
    /// must contain at least one character that is not ASCII
    /// whitespace.
    pub fn submit_invoice(&mut self, order_id: u128, caller: u128, invoice: String) -> (r: Result<
        (),
        EscrowError,
    >)
        requires
            old(self).wf(),
        ensures
            final(self).wf(),
            final(self).spec_now() == old(self).spec_now(),
            final(self).spec_users() == old(self).spec_users(),
            final(self).spec_products() == old(self).spec_products(),
            !spec_has_order(old(self).spec_orders(), order_id) ==> (r matches Err(
                EscrowError::OrderNotFound,
            )) && *final(self) == *old(self),
            spec_has_order(old(self).spec_orders(), order_id) ==> {
                let o = spec_order(old(self).spec_orders(), order_id);
                if o.seller_id != caller {
                    (r matches Err(EscrowError::UnauthorizedCaller)) && *final(self) == *old(self)
                } else if o.status != OrderStatus::WaitingPayment {
                    (r matches Err(EscrowError::WrongOrderStatus)) && *final(self) == *old(self)
                } else if crate::encoding::spec_blank(invoice@) {
                    (r matches Err(EscrowError::NoInvoiceSubmitted)) && *final(self) == *old(self)
                } else {
                    r is Ok && final(self).spec_orders() == old(self).spec_orders().update(
                        spec_order_idx(old(self).spec_orders(), order_id),
                        (Order { invoice_string: Some(invoice), ..o }),
                    )
                }
            },
    {
        let i = match self.find_order(order_id) {
            None => {
                return Err(EscrowError::OrderNotFound);
            },
            Some(i) => i,
        };
        proof {
            self.lemma_order_idx_unique(order_id, i as int);
        }
        if self.orders[i].seller_id != caller {
            return Err(EscrowError::UnauthorizedCaller);
        }
        if !matches!(self.orders[i].status, OrderStatus::WaitingPayment) {
            return Err(EscrowError::WrongOrderStatus);
        }
        if crate::encoding::is_blank(invoice.as_str()) {
            return Err(EscrowError::NoInvoiceSubmitted);
        }
        let mut order = self.orders.remove(i);
        order.invoice_string = Some(invoice);
        self.orders.insert(i, order);
        proof {
            assert(self.orders@ =~= old(self).orders@.update(i as int, self.orders@[i as int]));
        }
        Ok(())
    }

    /// Funds an order after the buyer paid the invoice. Only the buyer
    /// may call it, only while the order waits for payment and has an
    /// invoice. `observed` is the payment status the caller's polling
    /// loop saw on the seller's node, or `None` in trust mode without a
    /// node: `Held` or `Settled` funds the order, `Cancelled` and a
    /// poll that never saw the payment fail it.
    pub fn pay_order(&mut self, order_id: u128, caller: u128, observed: Option<PaymentStatus>)
        -> (r: Result<(), EscrowError>)
        requires
            old(self).wf(),
        ensures
            final(self).wf(),
            final(self).spec_now() == old(self).spec_now(),
            final(self).spec_users() == old(self).spec_users(),
            final(self).spec_products() == old(self).spec_products(),
            !spec_has_order(old(self).spec_orders(), order_id) ==> (r matches Err(
                EscrowError::OrderNotFound,
            )) && *final(self) == *old(self),
            spec_has_order(old(self).spec_orders(), order_id) ==> {
                let o = spec_order(old(self).spec_orders(), order_id);
                if o.buyer_id != caller {
                    (r matches Err(EscrowError::UnauthorizedCaller)) && *final(self) == *old(self)
                } else if o.status != OrderStatus::WaitingPayment {
                    (r matches Err(EscrowError::WrongOrderStatus)) && *final(self) == *old(self)
                } else if o.invoice_string is None {
                    (r matches Err(EscrowError::NoInvoiceSubmitted)) && *final(self) == *old(self)
                } else if observed == Some(PaymentStatus::Cancelled) {
                    (r matches Err(EscrowError::PaymentCancelled)) && *final(self) == *old(self)
                } else if observed == Some(PaymentStatus::Pending) {
                    (r matches Err(EscrowError::PaymentNotReceived)) && *final(self) == *old(self)
                } else {
                    &&& r is Ok
                    &&& final(self).spec_orders() == old(self).spec_orders().update(
                        spec_order_idx(old(self).spec_orders(), order_id),
                        (Order { status: OrderStatus::Funded, ..o }),
                    )
                    &&& spec_order_edge(o.status, OrderStatus::Funded)
                }
            },
    {
        let i = match self.find_order(order_id) {
            None => {
                return Err(EscrowError::OrderNotFound);
            },
            Some(i) => i,
        };
        proof {
            self.lemma_order_idx_unique(order_id, i as int);
        }
        if self.orders[i].buyer_id != caller {
            return Err(EscrowError::UnauthorizedCaller);
        }
        if !matches!(self.orders[i].status, OrderStatus::WaitingPayment) {
            return Err(EscrowError::WrongOrderStatus);
        }
        if self.orders[i].invoice_string.is_none() {
            return Err(EscrowError::NoInvoiceSubmitted);
        }
        match observed {
            Some(PaymentStatus::Cancelled) => {
                return Err(EscrowError::PaymentCancelled);
            },
            Some(PaymentStatus::Pending) => {
                return Err(EscrowError::PaymentNotReceived);
            },
            _ => {},
        }
        let mut order = self.orders.remove(i);
        order.status = OrderStatus::Funded;
        self.orders.insert(i, order);
        proof {
            assert(self.orders@ =~= old(self).orders@.update(i as int, self.orders@[i as int]));
        }
        Ok(())
    }

    /// Marks a funded order shipped. Only the seller may call it.
    pub fn ship_order(&mut self, order_id: u128, caller: u128) -> (r: Result<(), EscrowError>)
        requires
            old(self).wf(),
        ensures
            final(self).wf(),
            final(self).spec_now() == old(self).spec_now(),
            final(self).spec_users() == old(self).spec_users(),
            final(self).spec_products() == old(self).spec_products(),
            !spec_has_order(old(self).spec_orders(), order_id) ==> (r matches Err(
                EscrowError::OrderNotFound,
            )) && *final(self) == *old(self),
            spec_has_order(old(self).spec_orders(), order_id) ==> {
                let o = spec_order(old(self).spec_orders(), order_id);
                if o.seller_id != caller {
                    (r matches Err(EscrowError::UnauthorizedCaller)) && *final(self) == *old(self)
                } else if o.status != OrderStatus::Funded {
                    (r matches Err(EscrowError::WrongOrderStatus)) && *final(self) == *old(self)
                } else {
                    &&& r is Ok
                    &&& final(self).spec_orders() == old(self).spec_orders().update(
                        spec_order_idx(old(self).spec_orders(), order_id),
                        (Order { status: OrderStatus::Shipped, ..o }),
                    )
                    &&& spec_order_edge(o.status, OrderStatus::Shipped)
                }
            },
    {
        let i = match self.find_order(order_id) {
            None => {
                return Err(EscrowError::OrderNotFound);
            },
            Some(i) => i,
        };
        proof {
            self.lemma_order_idx_unique(order_id, i as int);
        }
        if self.orders[i].seller_id != caller {
            return Err(EscrowError::UnauthorizedCaller);
        }
        if !matches!(self.orders[i].status, OrderStatus::Funded) {
            return Err(EscrowError::WrongOrderStatus);
        }
        let mut order = self.orders.remove(i);
        order.status = OrderStatus::Shipped;
        self.orders.insert(i, order);
        proof {
            assert(self.orders@ =~= old(self).orders@.update(i as int, self.orders@[i as int]));
        }
        Ok(())
    }

    /// Confirms receipt: the buyer completes a shipped order, and the
    /// escrow hands back the payment hash with the escrowed preimage so
    /// the caller can settle the seller's invoice.
    pub fn confirm_order(&mut self, order_id: u128, caller: u128) -> (r: Result<
        SettleInstruction,
        EscrowError,
    >)
        requires
            old(self).wf(),
        ensures
            final(self).wf(),
            final(self).spec_now() == old(self).spec_now(),
            final(self).spec_users() == old(self).spec_users(),
            final(self).spec_products() == old(self).spec_products(),
            !spec_has_order(old(self).spec_orders(), order_id) ==> (r matches Err(
                EscrowError::OrderNotFound,
            )) && *final(self) == *old(self),
            spec_has_order(old(self).spec_orders(), order_id) ==> {
                let o = spec_order(old(self).spec_orders(), order_id);
                if o.buyer_id != caller {
                    (r matches Err(EscrowError::UnauthorizedCaller)) && *final(self) == *old(self)
                } else if o.status != OrderStatus::Shipped {
                    (r matches Err(EscrowError::WrongOrderStatus)) && *final(self) == *old(self)
                } else {
                    &&& r matches Ok(ins)
                    &&& ins.payment_hash@ == o.payment_hash@
                    &&& ins.preimage@ == o.preimage@
                    &&& spec_hash_matches(ins.payment_hash@, ins.preimage@)
                    &&& final(self).spec_orders() == old(self).spec_orders().update(
                        spec_order_idx(old(self).spec_orders(), order_id),
                        (Order { status: OrderStatus::Completed, ..o }),
                    )
                    &&& spec_order_edge(o.status, OrderStatus::Completed)
                }
            },
    {
        let i = match self.find_order(order_id) {
            None => {
                return Err(EscrowError::OrderNotFound);
            },
            Some(i) => i,
        };
        proof {
            self.lemma_order_idx_unique(order_id, i as int);
        }
        if self.orders[i].buyer_id != caller {
            return Err(EscrowError::UnauthorizedCaller);
        }
        if !matches!(self.orders[i].status, OrderStatus::Shipped) {
            return Err(EscrowError::WrongOrderStatus);
        }
        let mut order = self.orders.remove(i);
        order.status = OrderStatus::Completed;
        let ins = SettleInstruction {
            payment_hash: order.payment_hash.clone(),
            preimage: order.preimage.clone(),
        };
        self.orders.insert(i, order);
        proof {
            assert(self.orders@ =~= old(self).orders@.update(i as int, self.orders@[i as int]));
        }
        Ok(ins)
    }

    /// Raises a dispute: the buyer may dispute a funded or shipped
    /// order; it moves to `Disputed` and waits for the arbiter.
    pub fn dispute_order(&mut self, order_id: u128, caller: u128, reason: String) -> (r: Result<
        (),
        EscrowError,
    >)
        requires
            old(self).wf(),
        ensures
            final(self).wf(),
            final(self).spec_now() == old(self).spec_now(),
            final(self).spec_users() == old(self).spec_users(),
            final(self).spec_products() == old(self).spec_products(),
            !spec_has_order(old(self).spec_orders(), order_id) ==> (r matches Err(
                EscrowError::OrderNotFound,
            )) && *final(self) == *old(self),
            spec_has_order(old(self).spec_orders(), order_id) ==> {
                let o = spec_order(old(self).spec_orders(), order_id);
                if o.buyer_id != caller {
                    (r matches Err(EscrowError::UnauthorizedCaller)) && *final(self) == *old(self)
                } else if !(o.status == OrderStatus::Funded || o.status == OrderStatus::Shipped) {
                    (r matches Err(EscrowError::WrongOrderStatus)) && *final(self) == *old(self)
                } else {
                    &&& r is Ok
                    &&& final(self).spec_orders() == old(self).spec_orders().update(
                        spec_order_idx(old(self).spec_orders(), order_id),
                        (Order {
                            status: OrderStatus::Disputed,
                            dispute: Some(
                                Dispute {
                                    reason,
                                    created_at: old(self).spec_now(),
                                    resolution: None,
                                },
                            ),
                            ..o
                        }),
                    )
                    &&& spec_order_edge(o.status, OrderStatus::Disputed)
                }
            },
    {
        let i = match self.find_order(order_id) {
            None => {
                return Err(EscrowError::OrderNotFound);
            },
            Some(i) => i,
        };
        proof {
            self.lemma_order_idx_unique(order_id, i as int);
        }
        if self.orders[i].buyer_id != caller {
            return Err(EscrowError::UnauthorizedCaller);
        }
        let disputable = matches!(self.orders[i].status, OrderStatus::Funded) || matches!(
            self.orders[i].status,
            OrderStatus::Shipped,
        );
        if !disputable {
            return Err(EscrowError::WrongOrderStatus);
        }
        let mut order = self.orders.remove(i);
        order.status = OrderStatus::Disputed;
        order.dispute = Some(Dispute { reason, created_at: self.now, resolution: None });
        self.orders.insert(i, order);
        proof {
            assert(self.orders@ =~= old(self).orders@.update(i as int, self.orders@[i as int]));
        }
        Ok(())
    }

    /// Resolves a dispute. To the seller: the order completes and the
    /// caller receives the settle instruction. To the buyer: the order
    /// is refunded, the product becomes available again, and the caller
    /// receives the hash of the invoice to cancel.
    pub fn resolve_dispute(&mut self, order_id: u128, resolution: DisputeResolution) -> (r: Result<
        DisputeOutcome,
        EscrowError,
    >)
        requires
            old(self).wf(),
        ensures
            final(self).wf(),
            final(self).spec_now() == old(self).spec_now(),
            final(self).spec_users() == old(self).spec_users(),
            !spec_has_order(old(self).spec_orders(), order_id) ==> (r matches Err(
                EscrowError::OrderNotFound,
            )) && *final(self) == *old(self),
            spec_has_order(old(self).spec_orders(), order_id) ==> {
                let o = spec_order(old(self).spec_orders(), order_id);
                if o.status != OrderStatus::Disputed {
                    (r matches Err(EscrowError::WrongOrderStatus)) && *final(self) == *old(self)
                } else {
                    &&& (resolution == DisputeResolution::ToSeller ==> {
                        &&& (r matches Ok(DisputeOutcome::Settle(ins)) && ins.payment_hash@
                            == o.payment_hash@ && ins.preimage@ == o.preimage@
                            && spec_hash_matches(ins.payment_hash@, ins.preimage@))
                        &&& final(self).spec_orders() == old(self).spec_orders().update(
                            spec_order_idx(old(self).spec_orders(), order_id),
                            (Order {
                                status: OrderStatus::Completed,
                                dispute: final(self).spec_orders()[spec_order_idx(
                                    old(self).spec_orders(),
                                    order_id,
                                )].dispute,
                                ..o
                            }),
                        )
                        &&& final(self).spec_products() == old(self).spec_products()
                        &&& spec_order_edge(o.status, OrderStatus::Completed)
                    })
                    &&& (resolution == DisputeResolution::ToBuyer ==> {
                        &&& (r matches Ok(DisputeOutcome::Refund(h)) && h@ == o.payment_hash@)
                        &&& final(self).spec_orders() == old(self).spec_orders().update(
                            spec_order_idx(old(self).spec_orders(), order_id),
                            (Order {
                                status: OrderStatus::Refunded,
                                dispute: final(self).spec_orders()[spec_order_idx(
                                    old(self).spec_orders(),
                                    order_id,
                                )].dispute,
                                ..o
                            }),
                        )
                        &&& (spec_has_product(old(self).spec_products(), o.product_id) ==> final(self).spec_products() == old(self).spec_products().update(
                            spec_product_idx(old(self).spec_products(), o.product_id),
                            (Product {
                                status: ProductStatus::Available,
                                ..spec_product(old(self).spec_products(), o.product_id)
                            }),
                        ))
                        &&& (!spec_has_product(old(self).spec_products(), o.product_id) ==> final(self).spec_products() == old(self).spec_products())
                        &&& spec_order_edge(o.status, OrderStatus::Refunded)
                    })
                    &&& (final(self).spec_orders()[spec_order_idx(
                        old(self).spec_orders(),
                        order_id,
                    )].dispute matches Some(d) ==> d.resolution == Some(resolution))
                }
            },
    {
        let i = match self.find_order(order_id) {
            None => {
                return Err(EscrowError::OrderNotFound);
            },
            Some(i) => i,
        };
        proof {
            self.lemma_order_idx_unique(order_id, i as int);
        }
        if !matches!(self.orders[i].status, OrderStatus::Disputed) {
            return Err(EscrowError::WrongOrderStatus);
        }
        let mut order = self.orders.remove(i);
        match &mut order.dispute {
            Some(d) => d.resolution = Some(resolution),
            None => {},
        }
        let outcome = match resolution {
            DisputeResolution::ToSeller => {
                order.status = OrderStatus::Completed;
                DisputeOutcome::Settle(
                    SettleInstruction {
                        payment_hash: order.payment_hash.clone(),
                        preimage: order.preimage.clone(),
                    },
                )
            },
            DisputeResolution::ToBuyer => {
                order.status = OrderStatus::Refunded;
                DisputeOutcome::Refund(order.payment_hash.clone())
            },
        };
        let product_id = order.product_id;
        self.orders.insert(i, order);
        proof {
            assert(self.orders@ =~= old(self).orders@.update(i as int, self.orders@[i as int]));
        }
        if matches!(resolution, DisputeResolution::ToBuyer) {
            match self.find_product(product_id) {
                Some(pi) => {
                    proof {
                        self.lemma_product_idx_unique_now(product_id, pi as int);
                    }
                    let mut product = self.products.remove(pi);
                    product.status = ProductStatus::Available;
                    self.products.insert(pi, product);
                    proof {
                        assert(self.products@ =~= old(self).products@.update(
                            pi as int,
                            self.products@[pi as int],
                        ));
                    }
                },
                None => {},
            }
        }
        Ok(outcome)
    }

    /// Like `lemma_product_idx_unique`, but without assuming the full
    /// engine invariant: only product-identifier uniqueness.
    proof fn lemma_product_idx_unique_now(&self, id: u128, i: int)
        requires
            forall|p: int, q: int|
                0 <= p < q < self.spec_products().len() ==> self.spec_products()[p].id
                    != self.spec_products()[q].id,
            0 <= i < self.spec_products().len(),
            self.spec_products()[i].id == id,
        ensures
            spec_has_product(self.spec_products(), id),
            spec_product_idx(self.spec_products(), id) == i,
    {
        assert(spec_has_product(self.spec_products(), id));
        let j = spec_product_idx(self.spec_products(), id);
        if i < j {
            assert(false);
        } else if j < i {
            assert(false);
        }
    }

    /// Advances the simulated clock and auto-completes every shipped
    /// order whose expiry has passed, returning for each the payment
    /// hash and the escrowed preimage that settle its invoice.
    pub fn tick(&mut self, seconds: i64) -> (r: Vec<ExpiredSettlement>)
        requires
            old(self).wf(),
            seconds >= 0,
        ensures
            final(self).wf(),
            final(self).spec_users() == old(self).spec_users(),
            final(self).spec_products() == old(self).spec_products(),
            final(self).spec_now() == (if old(self).spec_now() + seconds <= i64::MAX {
                old(self).spec_now() + seconds
            } else {
                i64::MAX as int
            }),
            final(self).spec_orders().len() == old(self).spec_orders().len(),
            forall|i: int|
                0 <= i < old(self).spec_orders().len() ==> {
                    let o = #[trigger] old(self).spec_orders()[i];
                    if o.status == OrderStatus::Shipped && o.expires_at <= final(self).spec_now() {
                        final(self).spec_orders()[i] == (Order {
                            status: OrderStatus::Completed,
                            ..o
                        })
                    } else {
                        final(self).spec_orders()[i] == o
                    }
                },
            forall|j: int|
                0 <= j < r@.len() ==> spec_expired_match(
                    old(self).spec_orders(),
                    final(self).spec_now(),
                    #[trigger] r@[j],
                ),
            forall|i: int|
                0 <= i < old(self).spec_orders().len() && (#[trigger] old(
                    self,
                ).spec_orders()[i]).status == OrderStatus::Shipped && old(
                    self,
                ).spec_orders()[i].expires_at <= final(self).spec_now() ==> spec_listed(
                    r@,
                    old(self).spec_orders()[i].id,
                ),
            forall|j: int, k: int|
                0 <= j < k < r@.len() ==> r@[j].order_id != r@[k].order_id,
    {
        if self.now <= i64::MAX - seconds {
            self.now = self.now + seconds;
        } else {
            self.now = i64::MAX;
        }
        let mut r: Vec<ExpiredSettlement> = Vec::new();
        let mut i: usize = 0;
        while i < self.orders.len()
            invariant
                i <= self.orders@.len(),
                self.users@ == old(self).users@,
                self.products@ == old(self).products@,
                self.now == (if old(self).spec_now() + seconds <= i64::MAX {
                    old(self).spec_now() + seconds
                } else {
                    i64::MAX as int
                }),
                self.orders@.len() == old(self).orders@.len(),
                spec_orders_wf(self.orders@),
                forall|k: int|
                    0 <= k < i ==> {
                        let o = #[trigger] old(self).orders@[k];
                        if o.status == OrderStatus::Shipped && o.expires_at <= self.now {
                            self.orders@[k] == (Order { status: OrderStatus::Completed, ..o })
                        } else {
                            self.orders@[k] == o
                        }
                    },
                forall|k: int| i <= k < self.orders@.len() ==> self.orders@[k] == old(self).orders@[k],
                forall|j: int|
                    0 <= j < r@.len() ==> spec_expired_match(
                        old(self).orders@,
                        self.now,
                        #[trigger] r@[j],
                    ),
                forall|k: int|
                    0 <= k < i && (#[trigger] old(self).orders@[k]).status == OrderStatus::Shipped
                        && old(self).orders@[k].expires_at <= self.now ==> spec_listed(
                        r@,
                        old(self).orders@[k].id,
                    ),
                forall|j: int|
                    0 <= j < r@.len() ==> spec_listed_from(
                        old(self).orders@,
                        i as int,
                        #[trigger] r@[j],
                    ),
                forall|j: int, k: int|
                    0 <= j < k < r@.len() ==> r@[j].order_id != r@[k].order_id,
            decreases self.orders@.len() - i,
        {
            let ghost pre = self.orders@;
            let ghost pre_r = r@;
            let expired = matches!(self.orders[i].status, OrderStatus::Shipped)
                && self.orders[i].expires_at <= self.now;
            if expired {
                let mut order = self.orders.remove(i);
                order.status = OrderStatus::Completed;
                r.push(
                    ExpiredSettlement {
                        order_id: order.id,
                        payment_hash: order.payment_hash.clone(),
                        preimage: order.preimage.clone(),
                    },
                );
                self.orders.insert(i, order);
                proof {
                    assert(self.orders@ =~= pre.update(i as int, self.orders@[i as int]));
                    let ghost jn = r@.len() - 1;
                    assert(old(self).orders@[i as int].status == OrderStatus::Shipped);
                    assert(old(self).orders@[i as int].expires_at <= self.now);
                    assert(r@[jn].order_id == old(self).orders@[i as int].id);
                    assert(r@[jn].payment_hash@ == old(self).orders@[i as int].payment_hash@);
                    assert(r@[jn].preimage@ == old(self).orders@[i as int].preimage@);
                    assert(spec_expired_match(old(self).orders@, self.now, r@[jn]));
                    assert(spec_listed(r@, old(self).orders@[i as int].id));
                    assert forall|j: int| 0 <= j < r@.len() implies spec_expired_match(
                        old(self).orders@,
                        self.now,
                        #[trigger] r@[j],
                    ) by {
                        if j < jn {
                            assert(spec_expired_match(old(self).orders@, self.now, r@[j]));
                        }
                    }
                    assert forall|k: int|
                        0 <= k < i + 1 && (#[trigger] old(self).orders@[k]).status
                            == OrderStatus::Shipped && old(self).orders@[k].expires_at
                            <= self.now implies spec_listed(r@, old(self).orders@[k].id) by {
                        if k < i {
                            let j = choose|j: int|
                                0 <= j < pre_r.len() && (#[trigger] pre_r[j]).order_id == old(
                                    self,
                                ).orders@[k].id;
                            assert(r@[j].order_id == old(self).orders@[k].id);
                        }
                    }
                    assert forall|j: int| 0 <= j < r@.len() implies spec_listed_from(
                        old(self).orders@,
                        i + 1,
                        #[trigger] r@[j],
                    ) by {
                        if j < jn {
                            assert(spec_listed_from(old(self).orders@, i as int, r@[j]));
                            let m = choose|m: int|
                                0 <= m < i && (#[trigger] old(self).orders@[m]).id
                                    == r@[j].order_id;
                            assert(0 <= m < i + 1 && old(self).orders@[m].id == r@[j].order_id);
                        } else {
                            assert(old(self).orders@[i as int].id == r@[j].order_id);
                        }
                    }
                    assert forall|j: int, k: int|
                        0 <= j < k < r@.len() implies r@[j].order_id != r@[k].order_id by {
                        if k == jn {
                            let m = choose|m: int|
                                0 <= m < i && (#[trigger] old(self).orders@[m]).id
                                    == r@[j].order_id;
                            assert(old(self).orders@[m].id != old(self).orders@[i as int].id);
                        }
                    }
                }
            }
            i = i + 1;
        }
        r
    }
}



/// From the engine invariant: until an order leaves the store, the
/// escrow holds a preimage whose hash equals the order's payment hash.
pub proof fn lemma_preimage_escrowed(e: &EscrowEngine, id: u128)
    requires
        e.wf(),
        spec_has_order(e.spec_orders(), id),
    ensures
        spec_hash_matches(
            spec_order(e.spec_orders(), id).payment_hash@,
            spec_order(e.spec_orders(), id).preimage@,
        ),
{
    let i = spec_order_idx(e.spec_orders(), id);
    assert(spec_order_wf(e.spec_orders()[i]));
}

} // verus!
