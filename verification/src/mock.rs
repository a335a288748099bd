//! The in-memory mock of the hold-invoice capability.
//!
//! It models one node's view: a ledger balance, and the set of hold
//! invoices it knows, each in one of the four payment states. Expiry is
//! driven by an explicit simulated clock.

use vstd::prelude::*;
use vstd::string::StringExecFns;

use crate::errors::FiberError;
use crate::fiber::{HoldInvoice, PaymentId, PaymentStatus};
use crate::payment::{spec_hash_matches, PaymentHash, Preimage};

verus! {

/// The recorded state of one mock invoice.
#[derive(Debug)]
pub struct MockInvoiceState {
    /// The payment hash the invoice is bound to.
    pub payment_hash: PaymentHash,
    /// The amount in shannons.
    pub amount: u64,
    /// The current payment status.
    pub status: PaymentStatus,
    /// The simulated time the invoice was created at, in seconds.
    pub created_at: u64,
    /// The expiry time in seconds.
    pub expiry_secs: u64,
}

/// Whether the invoice store holds an invoice for hash `h`.
pub open spec fn spec_contains(s: Seq<MockInvoiceState>, h: Seq<u8>) -> bool {
    exists|i: int| 0 <= i < s.len() && s[i].payment_hash@ == h
}

/// The index of the invoice for hash `h`; meaningful when the store
/// contains it and hashes are unique.
pub open spec fn spec_idx(s: Seq<MockInvoiceState>, h: Seq<u8>) -> int {
    choose|i: int| 0 <= i < s.len() && s[i].payment_hash@ == h
}

/// The invoice recorded for hash `h`.
pub open spec fn spec_lookup(s: Seq<MockInvoiceState>, h: Seq<u8>) -> MockInvoiceState {
    s[spec_idx(s, h)]
}

/// Whether an invoice is expired at simulated time `now`: more than
/// `expiry_secs` seconds have elapsed since its creation.
pub open spec fn spec_expired(inv: MockInvoiceState, now: u64) -> bool {
    now > inv.created_at + inv.expiry_secs
}

/// Saturating unsigned addition.
pub open spec fn spec_sat_add(a: u64, b: u64) -> u64 {
    if a + b > u64::MAX {
        u64::MAX
    } else {
        (a + b) as u64
    }
}

/// Saturating unsigned subtraction.
pub open spec fn spec_sat_sub(a: u64, b: u64) -> u64 {
    if a >= b {
        (a - b) as u64
    } else {
        0
    }
}

/// The in-memory mock client: a linearizable model of one node's
/// balance and hold invoices, with expiry driven by a simulated clock.
pub struct MockFiberClient {
    invoices: Vec<MockInvoiceState>,
    preimages: Vec<(PaymentHash, Preimage)>,
    balance: u64,
    now_secs: u64,
}

impl MockFiberClient {
    /// The invoices the mock knows.
    pub closed spec fn spec_invoices(&self) -> Seq<MockInvoiceState> {
        self.invoices@
    }

    /// The simulated balance in shannons.
    pub closed spec fn spec_balance(&self) -> u64 {
        self.balance
    }

    /// The preimages registered for invoices this node created.
    pub closed spec fn spec_preimages(&self) -> Seq<(PaymentHash, Preimage)> {
        self.preimages@
    }

    /// The simulated clock, in seconds.
    pub closed spec fn spec_now(&self) -> u64 {
        self.now_secs
    }

    /// Well-formedness: at most one invoice per payment hash.
    pub open spec fn wf(&self) -> bool {
        forall|i: int, j: int|
            0 <= i < j < self.spec_invoices().len() ==> self.spec_invoices()[i].payment_hash@
                != self.spec_invoices()[j].payment_hash@
    }

    /// Creates a mock client with the given starting balance.
    pub fn new(initial_balance: u64) -> (r: Self)
        ensures
            r.wf(),
            r.spec_balance() == initial_balance,
            r.spec_invoices().len() == 0,
            r.spec_preimages().len() == 0,
            r.spec_now() == 0,
    {
        MockFiberClient {
            invoices: Vec::new(),
            preimages: Vec::new(),
            balance: initial_balance,
            now_secs: 0,
        }
    }

    /// Advances the simulated clock.
    pub fn advance_time(&mut self, secs: u64)
        ensures
            final(self).spec_invoices() == old(self).spec_invoices(),
            final(self).spec_preimages() == old(self).spec_preimages(),
            final(self).spec_balance() == old(self).spec_balance(),
            final(self).spec_now() == spec_sat_add(old(self).spec_now(), secs),
            old(self).wf() ==> final(self).wf(),
    {
        if self.now_secs <= u64::MAX - secs {
            self.now_secs = self.now_secs + secs;
        } else {
            self.now_secs = u64::MAX;
        }
    }

    /// Registers the preimage of an invoice this node created, keyed
    /// by its payment hash.
    pub fn register_preimage(&mut self, preimage: Preimage)
        ensures
            final(self).spec_invoices() == old(self).spec_invoices(),
            final(self).spec_balance() == old(self).spec_balance(),
            final(self).spec_now() == old(self).spec_now(),
            old(self).wf() ==> final(self).wf(),
            final(self).spec_preimages().len() == old(self).spec_preimages().len() + 1,
            final(self).spec_preimages().last().0@ == crate::hashing::ckb_hash_of(preimage@),
            final(self).spec_preimages().last().1@ == preimage@,
            final(self).spec_preimages().subrange(0, old(self).spec_preimages().len() as int)
                == old(self).spec_preimages(),
    {
        let payment_hash = preimage.payment_hash();
        self.preimages.push((payment_hash, preimage));
        proof {
            assert(final(self).spec_preimages().subrange(
                0,
                old(self).spec_preimages().len() as int,
            ) =~= old(self).spec_preimages());
        }
    }

    /// The current balance.
    pub fn balance(&self) -> (r: u64)
        ensures
            r == self.spec_balance(),
    {
        self.balance
    }

    /// Finds the invoice for a hash, if one exists.
    fn find_invoice(&self, payment_hash: &PaymentHash) -> (r: Option<usize>)
        ensures
            match r {
                Some(i) => i < self.spec_invoices().len() && self.spec_invoices()[i as int].payment_hash@
                    == payment_hash@,
                None => !spec_contains(self.spec_invoices(), payment_hash@),
            },
    {
        let mut i: usize = 0;
        while i < self.invoices.len()
            invariant
                i <= self.spec_invoices().len(),
                forall|j: int|
                    0 <= j < i ==> self.spec_invoices()[j].payment_hash@ != payment_hash@,
            decreases self.spec_invoices().len() - i,
        {
            if crate::bytes::bytes_eq(self.invoices[i].payment_hash.as_bytes(), payment_hash.as_bytes()) {
                return Some(i);
            }
            i = i + 1;
        }
        None
    }

    /// In a well-formed store, any index whose invoice carries hash `h`
    /// is the index `spec_idx` denotes.
    proof fn lemma_idx_unique(&self, h: Seq<u8>, i: int)
        requires
            self.wf(),
            0 <= i < self.spec_invoices().len(),
            self.spec_invoices()[i].payment_hash@ == h,
        ensures
            spec_contains(self.spec_invoices(), h),
            spec_idx(self.spec_invoices(), h) == i,
    {
        assert(spec_contains(self.spec_invoices(), h));
        let j = spec_idx(self.spec_invoices(), h);
        assert(0 <= j < self.spec_invoices().len() && self.spec_invoices()[j].payment_hash@ == h);
        if i < j {
            assert(false);
        } else if j < i {
            assert(false);
        }
    }

    /// Creates a hold invoice bound to `payment_hash`. The mock always
    /// succeeds; an invoice already recorded for the same hash is
    /// replaced by the fresh pending one.
    pub fn create_hold_invoice(&mut self, payment_hash: &PaymentHash, amount: u64, expiry_secs: u64)
        -> (r: Result<HoldInvoice, FiberError>)
        requires
            old(self).wf(),
        ensures
            final(self).spec_preimages() == old(self).spec_preimages(),
            final(self).wf(),
            final(self).spec_balance() == old(self).spec_balance(),
            final(self).spec_now() == old(self).spec_now(),
            r is Ok,
            r->Ok_0.payment_hash@ == payment_hash@,
            r->Ok_0.amount == amount,
            r->Ok_0.expiry_secs == expiry_secs,
            r->Ok_0.invoice_string@ == "mock_invoice_"@ + crate::encoding::spec_hex_encode(
                payment_hash@,
            ),
            spec_contains(final(self).spec_invoices(), payment_hash@),
            spec_lookup(final(self).spec_invoices(), payment_hash@) == (MockInvoiceState {
                payment_hash: spec_lookup(final(self).spec_invoices(), payment_hash@).payment_hash,
                amount,
                status: PaymentStatus::Pending,
                created_at: old(self).spec_now(),
                expiry_secs,
            }),
            spec_lookup(final(self).spec_invoices(), payment_hash@).payment_hash@ == payment_hash@,
            forall|h: Seq<u8>|
                h != payment_hash@ ==> (#[trigger] spec_contains(final(self).spec_invoices(), h)
                    == spec_contains(old(self).spec_invoices(), h)),
            forall|h: Seq<u8>|
                h != payment_hash@ && spec_contains(final(self).spec_invoices(), h) ==> (
                #[trigger] spec_lookup(final(self).spec_invoices(), h)) == spec_lookup(
                    old(self).spec_invoices(),
                    h,
                ),
    {
        let state = MockInvoiceState {
            payment_hash: payment_hash.clone(),
            amount,
            status: PaymentStatus::Pending,
            created_at: self.now_secs,
            expiry_secs,
        };
        let found = self.find_invoice(payment_hash);
        match found {
            Some(i) => {
                let _replaced = self.invoices.remove(i);
                self.invoices.insert(i, state);
                proof {
                    assert(self.invoices@ =~= old(self).invoices@.update(
                        i as int,
                        self.invoices@[i as int],
                    ));
                    self.lemma_idx_unique(payment_hash@, i as int);
                    lemma_other_lookups_after_update(
                        old(self).spec_invoices(),
                        self.spec_invoices(),
                        i as int,
                    );
                }
            },
            None => {
                self.invoices.push(state);
                proof {
                    self.lemma_idx_unique(payment_hash@, self.spec_invoices().len() - 1);
                    lemma_other_lookups_after_push(old(self).spec_invoices(), self.spec_invoices());
                }
            },
        }
        let mut invoice_string = String::new();
        invoice_string.append("mock_invoice_");
        let digits = crate::encoding::hex_encode(payment_hash.as_bytes());
        invoice_string.append(digits.as_str());
        Ok(
            HoldInvoice {
                payment_hash: payment_hash.clone(),
                amount,
                expiry_secs,
                invoice_string,
            },
        )
    }

    /// Pays a hold invoice: locks the amount on this side. Fails with
    /// `InsufficientFunds` when the balance cannot cover the amount, and
    /// with `Expired` when the local invoice has expired; a remote
    /// invoice not yet known here is recorded as held.
    pub fn pay_hold_invoice(&mut self, invoice: &HoldInvoice) -> (r: Result<PaymentId, FiberError>)
        requires
            old(self).wf(),
        ensures
            final(self).spec_preimages() == old(self).spec_preimages(),
            final(self).wf(),
            final(self).spec_now() == old(self).spec_now(),
            old(self).spec_balance() < invoice.amount ==> (r matches Err(
                FiberError::InsufficientFunds,
            )) && *final(self) == *old(self),
            old(self).spec_balance() >= invoice.amount && spec_contains(
                old(self).spec_invoices(),
                invoice.payment_hash@,
            ) && spec_expired(
                spec_lookup(old(self).spec_invoices(), invoice.payment_hash@),
                old(self).spec_now(),
            ) ==> (r matches Err(FiberError::Expired)) && *final(self) == *old(self),
            old(self).spec_balance() >= invoice.amount && spec_contains(
                old(self).spec_invoices(),
                invoice.payment_hash@,
            ) && !spec_expired(
                spec_lookup(old(self).spec_invoices(), invoice.payment_hash@),
                old(self).spec_now(),
            ) ==> r is Ok && final(self).spec_balance() == old(self).spec_balance() - invoice.amount
                && spec_contains(final(self).spec_invoices(), invoice.payment_hash@) && spec_lookup(
                final(self).spec_invoices(),
                invoice.payment_hash@,
            ) == (MockInvoiceState {
                status: PaymentStatus::Held,
                ..spec_lookup(old(self).spec_invoices(), invoice.payment_hash@)
            }),
            old(self).spec_balance() >= invoice.amount && !spec_contains(
                old(self).spec_invoices(),
                invoice.payment_hash@,
            ) ==> r is Ok && final(self).spec_balance() == old(self).spec_balance() - invoice.amount
                && spec_contains(final(self).spec_invoices(), invoice.payment_hash@) && spec_lookup(
                final(self).spec_invoices(),
                invoice.payment_hash@,
            ) == (MockInvoiceState {
                payment_hash: spec_lookup(
                    final(self).spec_invoices(),
                    invoice.payment_hash@,
                ).payment_hash,
                amount: invoice.amount,
                status: PaymentStatus::Held,
                created_at: old(self).spec_now(),
                expiry_secs: invoice.expiry_secs,
            }) && spec_lookup(final(self).spec_invoices(), invoice.payment_hash@).payment_hash@
                == invoice.payment_hash@,
            forall|h: Seq<u8>|
                h != invoice.payment_hash@ ==> (#[trigger] spec_contains(final(self).spec_invoices(), h)
                    == spec_contains(old(self).spec_invoices(), h)),
            forall|h: Seq<u8>|
                h != invoice.payment_hash@ && spec_contains(final(self).spec_invoices(), h) ==> (
                #[trigger] spec_lookup(final(self).spec_invoices(), h)) == spec_lookup(
                    old(self).spec_invoices(),
                    h,
                ),
    {
        if self.balance < invoice.amount {
            return Err(FiberError::InsufficientFunds);
        }
        let found = self.find_invoice(&invoice.payment_hash);
        match found {
            Some(i) => {
                proof {
                    self.lemma_idx_unique(invoice.payment_hash@, i as int);
                }
                let created_at = self.invoices[i].created_at;
                let expiry = self.invoices[i].expiry_secs;
                let is_expired = if created_at <= u64::MAX - expiry {
                    self.now_secs > created_at + expiry
                } else {
                    false
                };
                if is_expired {
                    return Err(FiberError::Expired);
                }
                self.balance = self.balance - invoice.amount;
                let mut entry = self.invoices.remove(i);
                entry.status = PaymentStatus::Held;
                self.invoices.insert(i, entry);
                proof {
                    assert(self.invoices@ =~= old(self).invoices@.update(
                        i as int,
                        self.invoices@[i as int],
                    ));
                    self.lemma_idx_unique(invoice.payment_hash@, i as int);
                    lemma_other_lookups_after_update(
                        old(self).spec_invoices(),
                        self.spec_invoices(),
                        i as int,
                    );
                }
                Ok(PaymentId::new())
            },
            None => {
                self.balance = self.balance - invoice.amount;
                let state = MockInvoiceState {
                    payment_hash: invoice.payment_hash.clone(),
                    amount: invoice.amount,
                    status: PaymentStatus::Held,
                    created_at: self.now_secs,
                    expiry_secs: invoice.expiry_secs,
                };
                self.invoices.push(state);
                proof {
                    self.lemma_idx_unique(invoice.payment_hash@, self.spec_invoices().len() - 1);
                    lemma_other_lookups_after_push(old(self).spec_invoices(), self.spec_invoices());
                }
                Ok(PaymentId::new())
            },
        }
    }

    /// Settles a held invoice with its preimage and credits the amount.
    /// Fails with `InvalidPreimage` when the preimage does not hash to
    /// the payment hash, `InvoiceNotFound` when no invoice exists,
    /// `PaymentFailed` when the invoice is still pending, and
    /// `AlreadySettled` / `AlreadyCancelled` on re-entry.
    pub fn settle_invoice(&mut self, payment_hash: &PaymentHash, preimage: &Preimage) -> (r: Result<
        (),
        FiberError,
    >)
        requires
            old(self).wf(),
        ensures
            final(self).spec_preimages() == old(self).spec_preimages(),
            final(self).wf(),
            final(self).spec_now() == old(self).spec_now(),
            !spec_hash_matches(payment_hash@, preimage@) ==> (r matches Err(
                FiberError::InvalidPreimage,
            )) && *final(self) == *old(self),
            spec_hash_matches(payment_hash@, preimage@) && !spec_contains(
                old(self).spec_invoices(),
                payment_hash@,
            ) ==> (r matches Err(FiberError::InvoiceNotFound)) && *final(self) == *old(self),
            spec_hash_matches(payment_hash@, preimage@) && spec_contains(
                old(self).spec_invoices(),
                payment_hash@,
            ) ==> {
                let inv = spec_lookup(old(self).spec_invoices(), payment_hash@);
                match inv.status {
                    PaymentStatus::Pending => (r matches Err(FiberError::PaymentFailed(_))) && *final(self)
                        == *old(self),
                    PaymentStatus::Held => r is Ok && final(self).spec_balance() == spec_sat_add(
                        old(self).spec_balance(),
                        inv.amount,
                    ) && spec_contains(final(self).spec_invoices(), payment_hash@) && spec_lookup(
                        final(self).spec_invoices(),
                        payment_hash@,
                    ) == (MockInvoiceState { status: PaymentStatus::Settled, ..inv }),
                    PaymentStatus::Settled => (r matches Err(FiberError::AlreadySettled)) && *final(self)
                        == *old(self),
                    PaymentStatus::Cancelled => (r matches Err(FiberError::AlreadyCancelled)) && *final(self)
                        == *old(self),
                }
            },
            forall|h: Seq<u8>|
                h != payment_hash@ ==> (#[trigger] spec_contains(final(self).spec_invoices(), h)
                    == spec_contains(old(self).spec_invoices(), h)),
            forall|h: Seq<u8>|
                h != payment_hash@ && spec_contains(final(self).spec_invoices(), h) ==> (
                #[trigger] spec_lookup(final(self).spec_invoices(), h)) == spec_lookup(
                    old(self).spec_invoices(),
                    h,
                ),
    {
        if !payment_hash.verify(preimage) {
            return Err(FiberError::InvalidPreimage);
        }
        let found = self.find_invoice(payment_hash);
        match found {
            Some(i) => {
                proof {
                    self.lemma_idx_unique(payment_hash@, i as int);
                }
                match self.invoices[i].status {
                    PaymentStatus::Pending => Err(
                        FiberError::PaymentFailed(String::from_str("Invoice not yet paid")),
                    ),
                    PaymentStatus::Held => {
                        let amount = self.invoices[i].amount;
                        if self.balance <= u64::MAX - amount {
                            self.balance = self.balance + amount;
                        } else {
                            self.balance = u64::MAX;
                        }
                        let mut entry = self.invoices.remove(i);
                        entry.status = PaymentStatus::Settled;
                        self.invoices.insert(i, entry);
                        proof {
                            assert(self.invoices@ =~= old(self).invoices@.update(
                                i as int,
                                self.invoices@[i as int],
                            ));
                            self.lemma_idx_unique(payment_hash@, i as int);
                            lemma_other_lookups_after_update(
                                old(self).spec_invoices(),
                                self.spec_invoices(),
                                i as int,
                            );
                        }
                        Ok(())
                    },
                    PaymentStatus::Settled => Err(FiberError::AlreadySettled),
                    PaymentStatus::Cancelled => Err(FiberError::AlreadyCancelled),
                }
            },
            None => Err(FiberError::InvoiceNotFound),
        }
    }

    /// Cancels a pending or held invoice, refunding the payer. Fails
    /// with `InvoiceNotFound` when no invoice exists and with
    /// `AlreadySettled` / `AlreadyCancelled` on re-entry.
    pub fn cancel_invoice(&mut self, payment_hash: &PaymentHash) -> (r: Result<(), FiberError>)
        requires
            old(self).wf(),
        ensures
            final(self).spec_preimages() == old(self).spec_preimages(),
            final(self).wf(),
            final(self).spec_now() == old(self).spec_now(),
            final(self).spec_balance() == old(self).spec_balance(),
            !spec_contains(old(self).spec_invoices(), payment_hash@) ==> (r matches Err(
                FiberError::InvoiceNotFound,
            )) && *final(self) == *old(self),
            spec_contains(old(self).spec_invoices(), payment_hash@) ==> {
                let inv = spec_lookup(old(self).spec_invoices(), payment_hash@);
                match inv.status {
                    PaymentStatus::Pending => r is Ok && spec_contains(
                        final(self).spec_invoices(),
                        payment_hash@,
                    ) && spec_lookup(final(self).spec_invoices(), payment_hash@) == (MockInvoiceState {
                        status: PaymentStatus::Cancelled,
                        ..inv
                    }),
                    PaymentStatus::Held => r is Ok && spec_contains(
                        final(self).spec_invoices(),
                        payment_hash@,
                    ) && spec_lookup(final(self).spec_invoices(), payment_hash@) == (MockInvoiceState {
                        status: PaymentStatus::Cancelled,
                        ..inv
                    }),
                    PaymentStatus::Settled => (r matches Err(FiberError::AlreadySettled)) && *final(self)
                        == *old(self),
                    PaymentStatus::Cancelled => (r matches Err(FiberError::AlreadyCancelled)) && *final(self)
                        == *old(self),
                }
            },
            forall|h: Seq<u8>|
                h != payment_hash@ ==> (#[trigger] spec_contains(final(self).spec_invoices(), h)
                    == spec_contains(old(self).spec_invoices(), h)),
            forall|h: Seq<u8>|
                h != payment_hash@ && spec_contains(final(self).spec_invoices(), h) ==> (
                #[trigger] spec_lookup(final(self).spec_invoices(), h)) == spec_lookup(
                    old(self).spec_invoices(),
                    h,
                ),
    {
        let found = self.find_invoice(payment_hash);
        match found {
            Some(i) => {
                proof {
                    self.lemma_idx_unique(payment_hash@, i as int);
                }
                match self.invoices[i].status {
                    PaymentStatus::Pending => {
                        let mut entry = self.invoices.remove(i);
                        entry.status = PaymentStatus::Cancelled;
                        self.invoices.insert(i, entry);
                        proof {
                            assert(self.invoices@ =~= old(self).invoices@.update(
                                i as int,
                                self.invoices@[i as int],
                            ));
                            self.lemma_idx_unique(payment_hash@, i as int);
                            lemma_other_lookups_after_update(
                                old(self).spec_invoices(),
                                self.spec_invoices(),
                                i as int,
                            );
                        }
                        Ok(())
                    },
                    PaymentStatus::Held => {
                        let mut entry = self.invoices.remove(i);
                        entry.status = PaymentStatus::Cancelled;
                        self.invoices.insert(i, entry);
                        proof {
                            assert(self.invoices@ =~= old(self).invoices@.update(
                                i as int,
                                self.invoices@[i as int],
                            ));
                            self.lemma_idx_unique(payment_hash@, i as int);
                            lemma_other_lookups_after_update(
                                old(self).spec_invoices(),
                                self.spec_invoices(),
                                i as int,
                            );
                        }
                        Ok(())
                    },
                    PaymentStatus::Settled => Err(FiberError::AlreadySettled),
                    PaymentStatus::Cancelled => Err(FiberError::AlreadyCancelled),
                }
            },
            None => Err(FiberError::InvoiceNotFound),
        }
    }

    /// Reports the payment status of an invoice; a pending invoice past
    /// its expiry reports as cancelled. Fails with `InvoiceNotFound`
    /// when no invoice exists.
    pub fn get_payment_status(&self, payment_hash: &PaymentHash) -> (r: Result<
        PaymentStatus,
        FiberError,
    >)
        requires
            self.wf(),
        ensures
            !spec_contains(self.spec_invoices(), payment_hash@) ==> r matches Err(
                FiberError::InvoiceNotFound,
            ),
            spec_contains(self.spec_invoices(), payment_hash@) ==> {
                let inv = spec_lookup(self.spec_invoices(), payment_hash@);
                if inv.status == PaymentStatus::Pending && spec_expired(inv, self.spec_now()) {
                    (r matches Ok(s) && s == PaymentStatus::Cancelled)
                } else {
                    (r matches Ok(s) && s == inv.status)
                }
            },
    {
        let found = self.find_invoice(payment_hash);
        match found {
            Some(i) => {
                proof {
                    self.lemma_idx_unique(payment_hash@, i as int);
                }
                let created_at = self.invoices[i].created_at;
                let expiry = self.invoices[i].expiry_secs;
                let is_expired = if created_at <= u64::MAX - expiry {
                    self.now_secs > created_at + expiry
                } else {
                    false
                };
                if is_expired && matches!(self.invoices[i].status, PaymentStatus::Pending) {
                    Ok(PaymentStatus::Cancelled)
                } else {
                    Ok(self.invoices[i].status)
                }
            },
            None => Err(FiberError::InvoiceNotFound),
        }
    }

    /// Reports the current balance.
    pub fn get_balance(&self) -> (r: Result<u64, FiberError>)
        ensures
            r matches Ok(b) && b == self.spec_balance(),
    {
        Ok(self.balance)
    }

    /// Lists all invoices with their statuses.
    pub fn get_all_invoices(&self) -> (r: Vec<(PaymentHash, PaymentStatus)>)
        ensures
            r@.len() == self.spec_invoices().len(),
            forall|i: int|
                0 <= i < r@.len() ==> (#[trigger] r@[i]).0@ == self.spec_invoices()[i].payment_hash@
                    && r@[i].1 == self.spec_invoices()[i].status,
    {
        let mut r: Vec<(PaymentHash, PaymentStatus)> = Vec::new();
        let mut i: usize = 0;
        while i < self.invoices.len()
            invariant
                i <= self.spec_invoices().len(),
                r@.len() == i,
                forall|j: int|
                    0 <= j < i ==> (#[trigger] r@[j]).0@
                        == self.spec_invoices()[j].payment_hash@ && r@[j].1
                        == self.spec_invoices()[j].status,
            decreases self.spec_invoices().len() - i,
        {
            r.push((self.invoices[i].payment_hash.clone(), self.invoices[i].status));
            i = i + 1;
        }
        r
    }

    /// Adjusts the balance by a signed amount, saturating at the bounds.
    pub fn adjust_balance(&mut self, amount: i64)
        ensures
            final(self).spec_invoices() == old(self).spec_invoices(),
            final(self).spec_preimages() == old(self).spec_preimages(),
            final(self).spec_now() == old(self).spec_now(),
            old(self).wf() ==> final(self).wf(),
            amount >= 0 ==> final(self).spec_balance() == spec_sat_add(
                old(self).spec_balance(),
                amount as u64,
            ),
            amount < 0 ==> final(self).spec_balance() == spec_sat_sub(
                old(self).spec_balance(),
                (-(amount as int)) as u64,
            ),
    {
        if amount >= 0 {
            let a = amount as u64;
            if self.balance <= u64::MAX - a {
                self.balance = self.balance + a;
            } else {
                self.balance = u64::MAX;
            }
        } else {
            let a: u64 = if amount == i64::MIN {
                9223372036854775808u64
            } else {
                (-amount) as u64
            };
            proof {
                assert(a == (-(amount as int)) as u64);
            }
            if self.balance >= a {
                self.balance = self.balance - a;
            } else {
                self.balance = 0;
            }
        }
    }
}

/// After updating index `i`, every hash other than the one at `i` looks
/// up to the same invoice as before.
proof fn lemma_other_lookups_after_update(
    before: Seq<MockInvoiceState>,
    after: Seq<MockInvoiceState>,
    i: int,
)
    requires
        0 <= i < before.len(),
        after.len() == before.len(),
        forall|j: int| 0 <= j < before.len() && j != i ==> after[j] == before[j],
        forall|p: int, q: int|
            0 <= p < q < before.len() ==> before[p].payment_hash@ != before[q].payment_hash@,
        forall|p: int, q: int|
            0 <= p < q < after.len() ==> after[p].payment_hash@ != after[q].payment_hash@,
    ensures
        forall|h: Seq<u8>|
            h != after[i].payment_hash@ && h != before[i].payment_hash@ ==> (
            #[trigger] spec_contains(after, h)) == spec_contains(before, h) && (spec_contains(
                after,
                h,
            ) ==> spec_lookup(after, h) == spec_lookup(before, h)),
{
    assert forall|h: Seq<u8>|
        h != after[i].payment_hash@ && h != before[i].payment_hash@ implies (
    #[trigger] spec_contains(after, h)) == spec_contains(before, h) && (spec_contains(after, h)
        ==> spec_lookup(after, h) == spec_lookup(before, h)) by {
        if spec_contains(before, h) {
            let j = spec_idx(before, h);
            assert(after[j] == before[j]);
            assert(spec_contains(after, h));
        }
        if spec_contains(after, h) {
            let j = spec_idx(after, h);
            assert(after[j] == before[j]);
            assert(spec_contains(before, h));
            let k = spec_idx(before, h);
            if j < k {
                assert(false);
            } else if k < j {
                assert(false);
            }
        }
    }
}

/// After pushing a fresh invoice, every other hash looks up to the same
/// invoice as before.
proof fn lemma_other_lookups_after_push(before: Seq<MockInvoiceState>, after: Seq<MockInvoiceState>)
    requires
        after.len() == before.len() + 1,
        forall|j: int| 0 <= j < before.len() ==> after[j] == before[j],
        forall|p: int, q: int|
            0 <= p < q < after.len() ==> after[p].payment_hash@ != after[q].payment_hash@,
    ensures
        forall|h: Seq<u8>|
            h != after[after.len() - 1].payment_hash@ ==> (#[trigger] spec_contains(after, h))
                == spec_contains(before, h) && (spec_contains(after, h) ==> spec_lookup(after, h)
                == spec_lookup(before, h)),
{
    assert forall|h: Seq<u8>| h != after[after.len() - 1].payment_hash@ implies (
    #[trigger] spec_contains(after, h)) == spec_contains(before, h) && (spec_contains(after, h)
        ==> spec_lookup(after, h) == spec_lookup(before, h)) by {
        if spec_contains(before, h) {
            let j = spec_idx(before, h);
            assert(after[j] == before[j]);
            assert(spec_contains(after, h));
        }
        if spec_contains(after, h) {
            let j = spec_idx(after, h);
            assert(j < before.len());
            assert(spec_contains(before, h));
            let k = spec_idx(before, h);
            if j < k {
                assert(false);
            } else if k < j {
                assert(false);
            }
        }
    }
}

} // verus!
