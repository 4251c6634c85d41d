//! Process-manager state: the row of each saga run, keyed by the run's correlation identity, and the
//! stores that keep them. A run's row makes it idempotent (re-delivered triggers are recognised),
//! single-flight (one row per key) and resumable. Every upsert replaces the whole row and stamps
//! `last_update_utc` with the store's own clock; the row's own value is ignored on write.

use vstd::prelude::*;
use crate::errors::DomainError;
use crate::outside::now_unix_millis;

verus! {

/// Where a checkout run stands.
#[derive(Debug, Clone, Copy, PartialEq, Eq, Structural)]
pub enum PaymentProcessStatus {
    AwaitingPaymentResult,
    OrderPlaced,
    Failed,
}

impl PaymentProcessStatus {
    /// The run status's wire name.
    pub open spec fn wire_name(self) -> Seq<char> {
        match self {
            PaymentProcessStatus::AwaitingPaymentResult => "AWAITING_PAYMENT_RESULT"@,
            PaymentProcessStatus::OrderPlaced => "ORDER_PLACED"@,
            PaymentProcessStatus::Failed => "FAILED"@,
        }
    }

    /// The run status's wire name.
    pub fn as_str(self) -> (s: &'static str)
        ensures
            s@ == self.wire_name(),
    {
        match self {
            PaymentProcessStatus::AwaitingPaymentResult => "AWAITING_PAYMENT_RESULT",
            PaymentProcessStatus::OrderPlaced => "ORDER_PLACED",
            PaymentProcessStatus::Failed => "FAILED",
        }
    }
}

/// The payment's own status on a checkout run.
#[derive(Debug, Clone, Copy, PartialEq, Eq, Structural)]
pub enum PaymentStatus {
    Pending,
    Captured,
    Failed,
}

/// Where a refund run stands.
#[derive(Debug, Clone, Copy, PartialEq, Eq, Structural)]
pub enum RefundProcessStatus {
    PendingApproval,
    ApprovedAwaitingSettlement,
    Denied,
    Refunded,
}

/// Where a dispatch run stands.
#[derive(Debug, Clone, Copy, PartialEq, Eq, Structural)]
pub enum DeliveryDispatchProcessStatus {
    Offered,
    Accepted,
    SelfDispatched,
    Failed,
    Completed,
}

/// One checkout run, keyed by cart. The payment intent correlates inbound payment facts back to the
/// run; `last_processed_stripe_event_id` recognises a re-delivered webhook.
#[derive(Debug, Clone, PartialEq, Eq)]
pub struct PaymentProcessRow {
    pub cart_id: u128,
    pub order_id: u128,
    pub payment_intent_id: String,
    pub process_status: PaymentProcessStatus,
    pub payment_status: PaymentStatus,
    pub customer_id: Option<u128>,
    pub session_id: Option<u128>,
    pub client_secret: Option<String>,
    pub last_processed_stripe_event_id: Option<String>,
    /// Milliseconds since the Unix epoch, stamped by the store.
    pub last_update_utc: i64,
}

/// One refund run, keyed by order.
#[derive(Debug, Clone, PartialEq, Eq)]
pub struct RefundProcessRow {
    pub order_id: u128,
    pub payment_intent_id: Option<String>,
    pub refund_id: Option<String>,
    pub process_status: RefundProcessStatus,
    pub approved_amount_cents: Option<i64>,
    pub reason: Option<String>,
    pub last_update_utc: i64,
}

/// The record that a session's open carts were bound to a customer, keyed by session.
#[derive(Debug, Clone, PartialEq, Eq)]
pub struct CartBindingRow {
    pub session_id: u128,
    pub customer_id: u128,
    pub last_update_utc: i64,
}

/// One dispatch run per delivery order, keyed by order; `delivery_job_id` is the dispatch's
/// idempotency key. `offer_attempts` counts the offers made to the delivery channel.
#[derive(Debug, Clone, PartialEq, Eq)]
pub struct DeliveryDispatchRow {
    pub order_id: u128,
    pub restaurant_id: u128,
    pub delivery_job_id: u128,
    pub process_status: DeliveryDispatchProcessStatus,
    pub offer_attempts: i32,
    /// The rank of the channel currently offered, if any.
    pub current_rank: Option<i32>,
    /// The channel currently offered, if any.
    pub current_channel: Option<String>,
    pub last_update_utc: i64,
}

/// Copies an optional text.
pub fn copy_text(t: &Option<String>) -> (r: Option<String>)
    ensures
        r == *t,
{
    match t {
        None => None,
        Some(s) => Some(s.clone()),
    }
}

impl PaymentProcessRow {
    /// A field-for-field copy.
    pub fn duplicate(&self) -> (r: Self)
        ensures
            r == *self,
    {
        PaymentProcessRow {
            cart_id: self.cart_id,
            order_id: self.order_id,
            payment_intent_id: self.payment_intent_id.clone(),
            process_status: self.process_status,
            payment_status: self.payment_status,
            customer_id: self.customer_id,
            session_id: self.session_id,
            client_secret: copy_text(&self.client_secret),
            last_processed_stripe_event_id: copy_text(&self.last_processed_stripe_event_id),
            last_update_utc: self.last_update_utc,
        }
    }
}

impl RefundProcessRow {
    /// A field-for-field copy.
    pub fn duplicate(&self) -> (r: Self)
        ensures
            r == *self,
    {
        RefundProcessRow {
            order_id: self.order_id,
            payment_intent_id: copy_text(&self.payment_intent_id),
            refund_id: copy_text(&self.refund_id),
            process_status: self.process_status,
            approved_amount_cents: self.approved_amount_cents,
            reason: copy_text(&self.reason),
            last_update_utc: self.last_update_utc,
        }
    }
}

/// The store of checkout runs.
pub trait PaymentProcessStateStore {
    /// The live run for this cart, if any.
    fn by_cart(&self, cart_id: u128) -> Result<Option<PaymentProcessRow>, DomainError>;

    /// The run of this payment intent, if any.
    fn by_payment_intent(&self, payment_intent_id: &String) -> Result<Option<PaymentProcessRow>, DomainError>;

    /// The run that materializes this order, if any.
    fn by_order(&self, order_id: u128) -> Result<Option<PaymentProcessRow>, DomainError>;

    /// Inserts or replaces the run's row, stamping `last_update_utc`.
    fn upsert(&mut self, row: &PaymentProcessRow) -> Result<(), DomainError>;
}

/// The store of refund runs.
pub trait RefundProcessStateStore {
    /// The live run for this order, if any.
    fn by_order(&self, order_id: u128) -> Result<Option<RefundProcessRow>, DomainError>;

    /// Inserts or replaces the run's row, stamping `last_update_utc`.
    fn upsert(&mut self, row: &RefundProcessRow) -> Result<(), DomainError>;
}

/// The store of cart bindings.
pub trait CartBindingStateStore {
    /// The binding recorded for this session, if any.
    fn by_session(&self, session_id: u128) -> Result<Option<CartBindingRow>, DomainError>;

    /// Inserts or replaces the binding, stamping `last_update_utc`.
    fn upsert(&mut self, row: &CartBindingRow) -> Result<(), DomainError>;
}

/// The store of dispatch runs.
pub trait DeliveryDispatchStateStore {
    /// The live run for this order, if any.
    fn by_order(&self, order_id: u128) -> Result<Option<DeliveryDispatchRow>, DomainError>;

    /// The run of this delivery job, if any.
    fn by_job(&self, delivery_job_id: u128) -> Result<Option<DeliveryDispatchRow>, DomainError>;

    /// Inserts or replaces the run's row, stamping `last_update_utc`.
    fn upsert(&mut self, row: &DeliveryDispatchRow) -> Result<(), DomainError>;
}

// ---------------------------------------------------------------------------------------------
// In-memory stores: the rows of a table, at most one row per key.
// ---------------------------------------------------------------------------------------------

/// A row of a process-manager table: its key, and its copy stamped with an update time.
pub trait RunRow: Sized {
    /// The row's primary key.
    spec fn key_of(self) -> u128;

    /// The row with `last_update_utc` set to `t`.
    spec fn stamped_at(self, t: i64) -> Self;

    /// The row's primary key.
    fn key(&self) -> (k: u128)
        ensures
            k == self.key_of();

    /// A copy of the row with `last_update_utc` set to `t`.
    fn with_stamp(&self, t: i64) -> (r: Self)
        ensures
            r == self.stamped_at(t);

    /// A field-for-field copy.
    fn copy_row(&self) -> (r: Self)
        ensures
            r == *self;

    /// Stamping keeps the key.
    proof fn lemma_stamp_keeps_key(self, t: i64)
        ensures
            self.stamped_at(t).key_of() == self.key_of();
}

/// The rows of one table, at most one per key.
pub struct MemRows<R: RunRow> {
    rows: Vec<R>,
}

/// No two rows share a key.
pub open spec fn keys_unique<R: RunRow>(rows: Seq<R>) -> bool {
    forall|i: int, j: int| 0 <= i < j < rows.len() ==> (#[trigger] rows[i]).key_of() != (#[trigger] rows[j]).key_of()
}

/// The table as a map from key to row.
pub open spec fn rows_map<R: RunRow>(rows: Seq<R>) -> Map<u128, R> {
    Map::new(
        |k: u128| exists|i: int| 0 <= i < rows.len() && (#[trigger] rows[i]).key_of() == k,
        |k: u128| rows[choose|i: int| 0 <= i < rows.len() && (#[trigger] rows[i]).key_of() == k],
    )
}

impl<R: RunRow> View for MemRows<R> {
    type V = Map<u128, R>;

    closed spec fn view(&self) -> Map<u128, R> {
        rows_map(self.rows@)
    }
}

/// Each row of a table with unique keys is the map's row under its key, and every key of the map
/// has a row.
pub proof fn lemma_rows_map<R: RunRow>(rows: Seq<R>)
    requires
        keys_unique(rows),
    ensures
        forall|i: int| 0 <= i < rows.len() ==> rows_map(rows).contains_key((#[trigger] rows[i]).key_of())
            && rows_map(rows)[rows[i].key_of()] == rows[i],
        forall|k: u128| rows_map(rows).contains_key(k) ==> exists|i: int| 0 <= i < rows.len() && (#[trigger] rows[i]).key_of() == k,
{
    assert forall|i: int| 0 <= i < rows.len() implies rows_map(rows).contains_key((#[trigger] rows[i]).key_of())
        && rows_map(rows)[rows[i].key_of()] == rows[i] by {
        let k = rows[i].key_of();
        assert(rows_map(rows).dom().contains(k));
        let c = choose|c: int| 0 <= c < rows.len() && (#[trigger] rows[c]).key_of() == k;
        if c != i {
            if c < i {
                assert(rows[c].key_of() != rows[i].key_of());
            } else {
                assert(rows[i].key_of() != rows[c].key_of());
            }
        }
    }
    assert forall|k: u128| rows_map(rows).contains_key(k) implies exists|i: int| 0 <= i < rows.len()
        && (#[trigger] rows[i]).key_of() == k by {
        assert(rows_map(rows).dom().contains(k));
    }
}

/// Replacing the row under an existing key, or pushing a row under a new key, is a map insert.
proof fn lemma_put_is_insert<R: RunRow>(before: Seq<R>, after: Seq<R>, k: u128, v: R)
    requires
        keys_unique(before),
        v.key_of() == k,
        (exists|i: int| 0 <= i < before.len() && before[i].key_of() == k && after == before.update(i, v))
            || ((forall|j: int| 0 <= j < before.len() ==> (#[trigger] before[j]).key_of() != k) && after == before.push(v)),
    ensures
        keys_unique(after),
        rows_map(after) == rows_map(before).insert(k, v),
{
    lemma_rows_map(before);
    let pushed = (forall|j: int| 0 <= j < before.len() ==> (#[trigger] before[j]).key_of() != k) && after == before.push(v);
    let i: int = if pushed { before.len() as int } else {
        choose|i: int| 0 <= i < before.len() && before[i].key_of() == k && after == before.update(i, v)
    };
    assert(after[i] == v);
    assert(after.len() >= before.len());
    assert forall|j: int| 0 <= j < before.len() && j != i implies #[trigger] after[j] == before[j] by {}
    assert forall|a: int, b: int| 0 <= a < b < after.len() implies
        (#[trigger] after[a]).key_of() != (#[trigger] after[b]).key_of() by {
        if a != i && b != i {
            assert(after[a] == before[a] && after[b] == before[b]);
        } else if a == i {
            assert(after[b] == before[b]);
            if !pushed {
                assert(before[a].key_of() != before[b].key_of());
            }
        } else {
            assert(after[a] == before[a]);
            if !pushed {
                assert(before[a].key_of() != before[b].key_of());
            }
        }
    }
    lemma_rows_map(after);
    let m0 = rows_map(before);
    let m1 = rows_map(after);
    let m2 = m0.insert(k, v);
    assert forall|q: u128| #![trigger m1.contains_key(q)] m1.contains_key(q) == m2.contains_key(q) by {
        if m2.contains_key(q) && q != k {
            let w = choose|w: int| 0 <= w < before.len() && (#[trigger] before[w]).key_of() == q;
            assert(after[w] == before[w]);
        }
        if m1.contains_key(q) && q != k {
            let w = choose|w: int| 0 <= w < after.len() && (#[trigger] after[w]).key_of() == q;
            assert(w != i);
            assert(before[w] == after[w]);
        }
        if q == k {
            assert(after[i].key_of() == k);
        }
    }
    assert forall|q: u128| m1.contains_key(q) implies m1[q] == m2[q] by {
        if q != k {
            let w = choose|w: int| 0 <= w < before.len() && (#[trigger] before[w]).key_of() == q;
            assert(after[w] == before[w]);
        }
    }
    assert(m1 =~= m2);
}

/// The position of the row under `k`, if any.
fn position_of_key<R: RunRow>(rows: &Vec<R>, k: u128) -> (r: Option<usize>)
    ensures
        match r {
            Some(i) => i < rows@.len() && rows@[i as int].key_of() == k,
            None => forall|j: int| 0 <= j < rows@.len() ==> (#[trigger] rows@[j]).key_of() != k,
        },
{
    let mut i: usize = 0;
    while i < rows.len()
        invariant
            i <= rows@.len(),
            forall|j: int| 0 <= j < i ==> (#[trigger] rows@[j]).key_of() != k,
        decreases rows.len() - i,
    {
        if rows[i].key() == k {
            return Some(i);
        }
        i += 1;
    }
    None
}

impl<R: RunRow> MemRows<R> {
    /// One row per key.
    #[verifier::type_invariant]
    spec fn inv(self) -> bool {
        keys_unique(self.rows@)
    }

    /// An empty table.
    pub fn new() -> (t: Self)
        ensures
            t@ == Map::<u128, R>::empty(),
    {
        let t = MemRows { rows: Vec::new() };
        assert(t@ =~= Map::<u128, R>::empty());
        t
    }

    /// The row stored under `k`.
    pub fn get(&self, k: u128) -> (r: Option<R>)
        ensures
            r == (if self@.contains_key(k) { Some(self@[k]) } else { None }),
            r matches Some(x) ==> x.key_of() == k,
    {
        proof {
            use_type_invariant(self);
            lemma_rows_map(self.rows@);
        }
        let mut i: usize = 0;
        while i < self.rows.len()
            invariant
                i <= self.rows@.len(),
                forall|j: int| 0 <= j < i ==> (#[trigger] self.rows@[j]).key_of() != k,
                forall|k2: u128| self@.contains_key(k2) ==> exists|w: int| 0 <= w < self.rows@.len() && (#[trigger] self.rows@[w]).key_of() == k2,
                forall|w: int| 0 <= w < self.rows@.len() ==> self@.contains_key((#[trigger] self.rows@[w]).key_of())
                    && self@[self.rows@[w].key_of()] == self.rows@[w],
            decreases self.rows.len() - i,
        {
            if self.rows[i].key() == k {
                return Some(self.rows[i].copy_row());
            }
            i += 1;
        }
        None
    }

    /// Every stored row, once each, in storage order.
    pub fn values(&self) -> (v: Vec<R>)
        ensures
            keys_unique(v@),
            forall|i: int| 0 <= i < v@.len() ==> self@.contains_key((#[trigger] v@[i]).key_of())
                && self@[v@[i].key_of()] == v@[i],
            forall|k: u128| self@.contains_key(k) ==> exists|i: int| 0 <= i < v@.len() && (#[trigger] v@[i]).key_of() == k,
    {
        proof {
            use_type_invariant(self);
            lemma_rows_map(self.rows@);
        }
        let mut v: Vec<R> = Vec::new();
        let mut i: usize = 0;
        while i < self.rows.len()
            invariant
                i <= self.rows@.len(),
                keys_unique(self.rows@),
                v@.len() == i,
                forall|j: int| 0 <= j < i ==> v@[j] == self.rows@[j],
            decreases self.rows.len() - i,
        {
            v.push(self.rows[i].copy_row());
            i += 1;
        }
        proof {
            assert(v@ =~= self.rows@);
        }
        v
    }

    /// Inserts `row` stamped at `t`, replacing the row under the same key.
    pub fn put(&mut self, row: &R, t: i64)
        ensures
            final(self)@ == old(self)@.insert(row.key_of(), row.stamped_at(t)),
    {
        proof {
            use_type_invariant(&*self);
            row.lemma_stamp_keeps_key(t);
        }
        let stamped = row.with_stamp(t);
        let k = row.key();
        let mut rows: Vec<R> = Vec::new();
        std::mem::swap(&mut rows, &mut self.rows);
        let ghost before = rows@;
        match position_of_key(&rows, k) {
            Some(i) => {
                rows.set(i, stamped);
                proof {
                    assert(before[i as int].key_of() == k && rows@ == before.update(i as int, row.stamped_at(t)));
                }
            }
            None => {
                rows.push(stamped);
            }
        }
        proof {
            lemma_put_is_insert(before, rows@, k, row.stamped_at(t));
        }
        self.rows = rows;
    }
}

// ---------------------------------------------------------------------------------------------
// The four tables in memory.
// ---------------------------------------------------------------------------------------------

impl RunRow for PaymentProcessRow {
    open spec fn key_of(self) -> u128 {
        self.cart_id
    }

    open spec fn stamped_at(self, t: i64) -> Self {
        PaymentProcessRow { last_update_utc: t, ..self }
    }

    fn key(&self) -> (k: u128) {
        self.cart_id
    }

    fn with_stamp(&self, t: i64) -> (r: Self) {
        let mut r = self.duplicate();
        r.last_update_utc = t;
        r
    }

    fn copy_row(&self) -> (r: Self) {
        self.duplicate()
    }

    proof fn lemma_stamp_keeps_key(self, t: i64) {
    }
}

impl RunRow for RefundProcessRow {
    open spec fn key_of(self) -> u128 {
        self.order_id
    }

    open spec fn stamped_at(self, t: i64) -> Self {
        RefundProcessRow { last_update_utc: t, ..self }
    }

    fn key(&self) -> (k: u128) {
        self.order_id
    }

    fn with_stamp(&self, t: i64) -> (r: Self) {
        let mut r = self.duplicate();
        r.last_update_utc = t;
        r
    }

    fn copy_row(&self) -> (r: Self) {
        self.duplicate()
    }

    proof fn lemma_stamp_keeps_key(self, t: i64) {
    }
}

impl RunRow for CartBindingRow {
    open spec fn key_of(self) -> u128 {
        self.session_id
    }

    open spec fn stamped_at(self, t: i64) -> Self {
        CartBindingRow { last_update_utc: t, ..self }
    }

    fn key(&self) -> (k: u128) {
        self.session_id
    }

    fn with_stamp(&self, t: i64) -> (r: Self) {
        CartBindingRow { session_id: self.session_id, customer_id: self.customer_id, last_update_utc: t }
    }

    fn copy_row(&self) -> (r: Self) {
        CartBindingRow { session_id: self.session_id, customer_id: self.customer_id, last_update_utc: self.last_update_utc }
    }

    proof fn lemma_stamp_keeps_key(self, t: i64) {
    }
}

impl RunRow for DeliveryDispatchRow {
    open spec fn key_of(self) -> u128 {
        self.order_id
    }

    open spec fn stamped_at(self, t: i64) -> Self {
        DeliveryDispatchRow { last_update_utc: t, ..self }
    }

    fn key(&self) -> (k: u128) {
        self.order_id
    }

    fn with_stamp(&self, t: i64) -> (r: Self) {
        DeliveryDispatchRow {
            order_id: self.order_id,
            restaurant_id: self.restaurant_id,
            delivery_job_id: self.delivery_job_id,
            process_status: self.process_status,
            offer_attempts: self.offer_attempts,
            current_rank: self.current_rank,
            current_channel: copy_text(&self.current_channel),
            last_update_utc: t,
        }
    }

    fn copy_row(&self) -> (r: Self) {
        self.with_stamp(self.last_update_utc)
    }

    proof fn lemma_stamp_keeps_key(self, t: i64) {
    }
}

/// Some row of the table satisfies `p`, and `r` is such a row (the store does not promise which).
pub open spec fn found_where<R>(m: Map<u128, R>, r: Option<R>, p: spec_fn(R) -> bool) -> bool {
    match r {
        Some(row) => (exists|k: u128| m.contains_key(k) && #[trigger] m[k] == row) && p(row),
        None => forall|k: u128| m.contains_key(k) ==> !p(#[trigger] m[k]),
    }
}

/// The checkout runs in memory, one per cart.
pub struct MemPaymentProcessState {
    rows: MemRows<PaymentProcessRow>,
}

impl View for MemPaymentProcessState {
    type V = Map<u128, PaymentProcessRow>;

    closed spec fn view(&self) -> Map<u128, PaymentProcessRow> {
        self.rows@
    }
}

impl MemPaymentProcessState {
    /// An empty store.
    pub fn new() -> (s: Self)
        ensures
            s@ == Map::<u128, PaymentProcessRow>::empty(),
    {
        MemPaymentProcessState { rows: MemRows::new() }
    }

    /// The first stored run satisfying a field test, scanning in storage order.
    fn scan_intent(&self, payment_intent_id: &String) -> (r: Option<PaymentProcessRow>)
        ensures
            found_where(self@, r, |row: PaymentProcessRow| row.payment_intent_id@ == payment_intent_id@),
    {
        proof {
            use_type_invariant(&self.rows);
            lemma_rows_map(self.rows.rows@);
        }
        let rows = &self.rows.rows;
        let mut i: usize = 0;
        while i < rows.len()
            invariant
                i <= rows@.len(),
                rows@ == self.rows.rows@,
                forall|j: int| 0 <= j < i ==> (#[trigger] rows@[j]).payment_intent_id@ != payment_intent_id@,
                forall|k: u128| self@.contains_key(k) ==> exists|w: int| 0 <= w < rows@.len() && (#[trigger] rows@[w]).key_of() == k,
                forall|w: int| 0 <= w < rows@.len() ==> self@.contains_key((#[trigger] rows@[w]).key_of())
                    && self@[rows@[w].key_of()] == rows@[w],
            decreases rows.len() - i,
        {
            if rows[i].payment_intent_id == *payment_intent_id {
                let r = rows[i].duplicate();
                assert(self@.contains_key(rows@[i as int].key_of()));
                return Some(r);
            }
            i += 1;
        }
        proof {
            assert forall|k: u128| self@.contains_key(k) implies (#[trigger] self@[k]).payment_intent_id@ != payment_intent_id@ by {
                let w = choose|w: int| 0 <= w < rows@.len() && (#[trigger] rows@[w]).key_of() == k;
            }
        }
        None
    }

    /// The first stored run satisfying a field test, scanning in storage order.
    fn scan_order(&self, order_id: u128) -> (r: Option<PaymentProcessRow>)
        ensures
            found_where(self@, r, |row: PaymentProcessRow| row.order_id == order_id),
    {
        proof {
            use_type_invariant(&self.rows);
            lemma_rows_map(self.rows.rows@);
        }
        let rows = &self.rows.rows;
        let mut i: usize = 0;
        while i < rows.len()
            invariant
                i <= rows@.len(),
                rows@ == self.rows.rows@,
                forall|j: int| 0 <= j < i ==> (#[trigger] rows@[j]).order_id != order_id,
                forall|k: u128| self@.contains_key(k) ==> exists|w: int| 0 <= w < rows@.len() && (#[trigger] rows@[w]).key_of() == k,
                forall|w: int| 0 <= w < rows@.len() ==> self@.contains_key((#[trigger] rows@[w]).key_of())
                    && self@[rows@[w].key_of()] == rows@[w],
            decreases rows.len() - i,
        {
            if rows[i].order_id == order_id {
                let r = rows[i].duplicate();
                assert(self@.contains_key(rows@[i as int].key_of()));
                return Some(r);
            }
            i += 1;
        }
        proof {
            assert forall|k: u128| self@.contains_key(k) implies (#[trigger] self@[k]).order_id != order_id by {
                let w = choose|w: int| 0 <= w < rows@.len() && (#[trigger] rows@[w]).key_of() == k;
            }
        }
        None
    }
}


impl PaymentProcessStateStore for MemPaymentProcessState {
    fn by_cart(&self, cart_id: u128) -> (r: Result<Option<PaymentProcessRow>, DomainError>)
        ensures
            r == Ok::<Option<PaymentProcessRow>, DomainError>(
                if self@.contains_key(cart_id) { Some(self@[cart_id]) } else { None }),
    {
        Ok(self.rows.get(cart_id))
    }

    fn by_payment_intent(&self, payment_intent_id: &String) -> (r: Result<Option<PaymentProcessRow>, DomainError>)
        ensures
            r matches Ok(o) && found_where(self@, o, |row: PaymentProcessRow| row.payment_intent_id@ == payment_intent_id@),
    {
        Ok(self.scan_intent(payment_intent_id))
    }

    fn by_order(&self, order_id: u128) -> (r: Result<Option<PaymentProcessRow>, DomainError>)
        ensures
            r matches Ok(o) && found_where(self@, o, |row: PaymentProcessRow| row.order_id == order_id),
    {
        Ok(self.scan_order(order_id))
    }

    fn upsert(&mut self, row: &PaymentProcessRow) -> (r: Result<(), DomainError>)
        ensures
            r is Ok,
            exists|t: i64| final(self)@ == old(self)@.insert(row.cart_id, #[trigger] row.stamped_at(t)),
    {
        let now = now_unix_millis();
        self.rows.put(row, now);
        Ok(())
    }
}

/// The refund runs in memory, one per order.
pub struct MemRefundProcessState {
    rows: MemRows<RefundProcessRow>,
}

impl View for MemRefundProcessState {
    type V = Map<u128, RefundProcessRow>;

    closed spec fn view(&self) -> Map<u128, RefundProcessRow> {
        self.rows@
    }
}

impl MemRefundProcessState {
    /// An empty store.
    pub fn new() -> (s: Self)
        ensures
            s@ == Map::<u128, RefundProcessRow>::empty(),
    {
        MemRefundProcessState { rows: MemRows::new() }
    }
}

impl RefundProcessStateStore for MemRefundProcessState {
    fn by_order(&self, order_id: u128) -> (r: Result<Option<RefundProcessRow>, DomainError>)
        ensures
            r == Ok::<Option<RefundProcessRow>, DomainError>(
                if self@.contains_key(order_id) { Some(self@[order_id]) } else { None }),
    {
        Ok(self.rows.get(order_id))
    }

    fn upsert(&mut self, row: &RefundProcessRow) -> (r: Result<(), DomainError>)
        ensures
            r is Ok,
            exists|t: i64| final(self)@ == old(self)@.insert(row.order_id, #[trigger] row.stamped_at(t)),
    {
        let now = now_unix_millis();
        self.rows.put(row, now);
        Ok(())
    }
}

/// The cart bindings in memory, one per session.
pub struct MemCartBindingState {
    rows: MemRows<CartBindingRow>,
}

impl View for MemCartBindingState {
    type V = Map<u128, CartBindingRow>;

    closed spec fn view(&self) -> Map<u128, CartBindingRow> {
        self.rows@
    }
}

impl MemCartBindingState {
    /// An empty store.
    pub fn new() -> (s: Self)
        ensures
            s@ == Map::<u128, CartBindingRow>::empty(),
    {
        MemCartBindingState { rows: MemRows::new() }
    }
}

impl CartBindingStateStore for MemCartBindingState {
    fn by_session(&self, session_id: u128) -> (r: Result<Option<CartBindingRow>, DomainError>)
        ensures
            r == Ok::<Option<CartBindingRow>, DomainError>(
                if self@.contains_key(session_id) { Some(self@[session_id]) } else { None }),
    {
        Ok(self.rows.get(session_id))
    }

    fn upsert(&mut self, row: &CartBindingRow) -> (r: Result<(), DomainError>)
        ensures
            r is Ok,
            exists|t: i64| final(self)@ == old(self)@.insert(row.session_id, #[trigger] row.stamped_at(t)),
    {
        let now = now_unix_millis();
        self.rows.put(row, now);
        Ok(())
    }
}

/// The dispatch runs in memory, one per order.
pub struct MemDeliveryDispatchState {
    rows: MemRows<DeliveryDispatchRow>,
}

impl View for MemDeliveryDispatchState {
    type V = Map<u128, DeliveryDispatchRow>;

    closed spec fn view(&self) -> Map<u128, DeliveryDispatchRow> {
        self.rows@
    }
}

impl MemDeliveryDispatchState {
    /// An empty store.
    pub fn new() -> (s: Self)
        ensures
            s@ == Map::<u128, DeliveryDispatchRow>::empty(),
    {
        MemDeliveryDispatchState { rows: MemRows::new() }
    }

    /// The first stored run of `delivery_job_id`, scanning in storage order.
    fn scan_job(&self, delivery_job_id: u128) -> (r: Option<DeliveryDispatchRow>)
        ensures
            found_where(self@, r, |row: DeliveryDispatchRow| row.delivery_job_id == delivery_job_id),
    {
        proof {
            use_type_invariant(&self.rows);
            lemma_rows_map(self.rows.rows@);
        }
        let rows = &self.rows.rows;
        let mut i: usize = 0;
        while i < rows.len()
            invariant
                i <= rows@.len(),
                rows@ == self.rows.rows@,
                forall|j: int| 0 <= j < i ==> (#[trigger] rows@[j]).delivery_job_id != delivery_job_id,
                forall|k: u128| self@.contains_key(k) ==> exists|w: int| 0 <= w < rows@.len() && (#[trigger] rows@[w]).key_of() == k,
                forall|w: int| 0 <= w < rows@.len() ==> self@.contains_key((#[trigger] rows@[w]).key_of())
                    && self@[rows@[w].key_of()] == rows@[w],
            decreases rows.len() - i,
        {
            if rows[i].delivery_job_id == delivery_job_id {
                let r = rows[i].copy_row();
                assert(self@.contains_key(rows@[i as int].key_of()));
                return Some(r);
            }
            i += 1;
        }
        proof {
            assert forall|k: u128| self@.contains_key(k) implies (#[trigger] self@[k]).delivery_job_id != delivery_job_id by {
                let w = choose|w: int| 0 <= w < rows@.len() && (#[trigger] rows@[w]).key_of() == k;
            }
        }
        None
    }
}

impl DeliveryDispatchStateStore for MemDeliveryDispatchState {
    fn by_order(&self, order_id: u128) -> (r: Result<Option<DeliveryDispatchRow>, DomainError>)
        ensures
            r == Ok::<Option<DeliveryDispatchRow>, DomainError>(
                if self@.contains_key(order_id) { Some(self@[order_id]) } else { None }),
    {
        Ok(self.rows.get(order_id))
    }

    fn by_job(&self, delivery_job_id: u128) -> (r: Result<Option<DeliveryDispatchRow>, DomainError>)
        ensures
            r matches Ok(o) && found_where(self@, o, |row: DeliveryDispatchRow| row.delivery_job_id == delivery_job_id),
    {
        Ok(self.scan_job(delivery_job_id))
    }

    fn upsert(&mut self, row: &DeliveryDispatchRow) -> (r: Result<(), DomainError>)
        ensures
            r is Ok,
            exists|t: i64| final(self)@ == old(self)@.insert(row.order_id, #[trigger] row.stamped_at(t)),
    {
        let now = now_unix_millis();
        self.rows.put(row, now);
        Ok(())
    }
}

/// Read after write: after an upsert, the run's key reads back the written row, stamped; every
/// other key reads back what it did before.
pub proof fn law_upsert_reads_back(before: Map<u128, PaymentProcessRow>, after: Map<u128, PaymentProcessRow>,
    row: PaymentProcessRow, other: u128)
    requires
        exists|t: i64| after == before.insert(row.cart_id, #[trigger] row.stamped_at(t)),
        other != row.cart_id,
    ensures
        after.contains_key(row.cart_id),
        after[row.cart_id].cart_id == row.cart_id,
        after[row.cart_id].payment_intent_id == row.payment_intent_id,
        after[row.cart_id].process_status == row.process_status,
        after[row.cart_id].payment_status == row.payment_status,
        after.contains_key(other) == before.contains_key(other),
        before.contains_key(other) ==> after[other] == before[other],
{
    let t = choose|t: i64| after == before.insert(row.cart_id, #[trigger] row.stamped_at(t));
    assert(after == before.insert(row.cart_id, row.stamped_at(t)));
}

} // verus!
