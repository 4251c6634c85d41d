//! The payment-outcome legs of the checkout saga and the settlement legs of a placed order.
//!
//! A captured payment materializes the order from the checkout frozen on the payment's birth fact
//! and closes the cart; a failed one resolves the run and leaves the cart open. A payment outcome
//! matching no checkout run is flagged `PaymentEventOrphaned`; an already-resolved run is a benign
//! re-delivery. A delivered order's authorized hold is captured, a rejected or cancelled one's is
//! released; a capture the gateway refuses is recorded with its typed reason.

use vstd::prelude::*;
use crate::checkout::{CheckoutSnapshot, OrderPlaced};
use crate::errors::{error_text, error_text_spec, reject1, ContextValue, DomainError};
use crate::outside::{uuid_text, uuid_to_text};
use crate::pm_state::{PaymentProcessRow, PaymentProcessStatus, PaymentStatus};
use crate::process_managers::HookOutcome;
use crate::read_models::{OrderReadRepository, OrderTrackingRow};
use crate::text::{chars_of, contains_run, same_text, starts_with, vec_contains_run, vec_starts_with};

verus! {

/// The `PaymentEventOrphaned` error: a payment outcome for an intent no checkout run knows.
pub fn orphaned(payment_intent_id: &String) -> (e: DomainError)
    ensures
        e.rejected_code() == Some("PaymentEventOrphaned"@),
        e.context_value("paymentIntentId"@) == Some(ContextValue::Text(*payment_intent_id)),
{
    reject1("PaymentEventOrphaned", "paymentIntentId", ContextValue::Text(payment_intent_id.clone()))
}

/// Why a payment outcome for a run no longer awaiting its result is skipped: the run is already
/// resolved (its status named), and this is a benign re-delivery.
pub open spec fn already_resolved_reason(payment_intent_id: Seq<char>, status: PaymentProcessStatus) -> Seq<char> {
    "checkout run for intent "@ + payment_intent_id + " is already resolved ("@ + status.wire_name()
        + ") — benign Stripe re-delivery"@
}

/// The check of both payment-outcome legs: the run of the intent must exist (else the orphan error)
/// and still await its payment result (else a benign skip saying the run is already resolved).
pub fn payment_run_check(payment_intent_id: &String, run: Option<PaymentProcessRow>)
    -> (r: Result<HookOutcome<PaymentProcessRow>, DomainError>)
    ensures
        run_check_outcome(*payment_intent_id, run, r),
        run is None ==> r->Err_0.context_value("paymentIntentId"@) == Some(ContextValue::Text(*payment_intent_id)),
{
    match run {
        None => Err(orphaned(payment_intent_id)),
        Some(row) => {
            if row.process_status == PaymentProcessStatus::AwaitingPaymentResult {
                Ok(HookOutcome::Ready(row))
            } else {
                let mut reason = String::from_str("checkout run for intent ");
                reason.append(payment_intent_id.as_str());
                reason.append(" is already resolved (");
                reason.append(row.process_status.as_str());
                reason.append(") — benign Stripe re-delivery");
                Ok(HookOutcome::Skip(reason))
            }
        }
    }
}

/// The cart is checked out into the order.
#[derive(Debug, Clone, PartialEq, Eq)]
pub struct CartCheckedOut {
    pub cart_id: u128,
    pub order_id: u128,
}

/// What a captured payment does: the order's birth (unless the order is already placed), the cart's
/// check-out (only while the cart is still open), and the resolved run.
#[derive(Debug, Clone, PartialEq, Eq)]
pub struct CaptureEffects {
    pub order_placed: Option<OrderPlaced>,
    pub cart_checked_out: Option<CartCheckedOut>,
    pub run: PaymentProcessRow,
}

/// `next` is `row` resolved by a payment outcome of the event `event_id`: captured (payment
/// `CAPTURED`, run `ORDER_PLACED`) or failed (both `FAILED`), the event recorded as the last one
/// processed, every other field kept.
pub open spec fn resolved_as(next: PaymentProcessRow, row: PaymentProcessRow, captured: bool, event_id: u128) -> bool {
    &&& next.cart_id == row.cart_id
    &&& next.order_id == row.order_id
    &&& next.payment_intent_id == row.payment_intent_id
    &&& next.customer_id == row.customer_id
    &&& next.session_id == row.session_id
    &&& next.client_secret == row.client_secret
    &&& next.last_update_utc == row.last_update_utc
    &&& captured ==> next.payment_status == PaymentStatus::Captured && next.process_status == PaymentProcessStatus::OrderPlaced
    &&& !captured ==> next.payment_status == PaymentStatus::Failed && next.process_status == PaymentProcessStatus::Failed
    &&& next.last_processed_stripe_event_id matches Some(t) && t@ == uuid_text(event_id)
}

/// The run resolved by a payment outcome.
pub fn resolved_run(row: PaymentProcessRow, captured: bool, event_id: u128) -> (r: PaymentProcessRow)
    ensures
        resolved_as(r, row, captured, event_id),
{
    let (payment_status, process_status) = if captured {
        (PaymentStatus::Captured, PaymentProcessStatus::OrderPlaced)
    } else {
        (PaymentStatus::Failed, PaymentProcessStatus::Failed)
    };
    PaymentProcessRow {
        payment_status,
        process_status,
        last_processed_stripe_event_id: Some(uuid_to_text(event_id)),
        ..row
    }
}

/// The failure leg of a checkout: an orphan failure is the orphan error, a run already resolved is a
/// benign skip, and an awaiting run is resolved failed (payment and run) with nothing else done — the
/// cart stays open for another try.
pub fn on_payment_failed(payment_intent_id: &String, run: Option<PaymentProcessRow>, event_id: u128)
    -> (r: Result<HookOutcome<PaymentProcessRow>, DomainError>)
    ensures
        run is None ==> r is Err && r->Err_0.rejected_code() == Some("PaymentEventOrphaned"@),
        (run matches Some(row) && row.process_status != PaymentProcessStatus::AwaitingPaymentResult)
            ==> (r matches Ok(h) && h is Skip),
        (run matches Some(row) && row.process_status != PaymentProcessStatus::AwaitingPaymentResult)
            ==> (r matches Ok(HookOutcome::Skip(m)) && m@ == already_resolved_reason(payment_intent_id@, run->0.process_status)),
        (run matches Some(row) && row.process_status == PaymentProcessStatus::AwaitingPaymentResult)
            ==> (r matches Ok(HookOutcome::Ready(next)) && resolved_as(next, run->0, false, event_id)),
{
    match payment_run_check(payment_intent_id, run)? {
        HookOutcome::Skip(reason) => Ok(HookOutcome::Skip(reason)),
        HookOutcome::Ready(row) => Ok(HookOutcome::Ready(resolved_run(row, false, event_id))),
    }
}

/// The order a captured checkout materializes: the frozen checkout's restaurant, customer, contact,
/// service type, address, lines, total, breakdown, note and test mode, under `order_id`, paid by the
/// intent, with no external reference and replacing nothing.
pub open spec fn order_from_checkout(order_id: u128, snap: CheckoutSnapshot, payment_intent_id: String) -> OrderPlaced {
    OrderPlaced {
        order_id,
        test_mode: snap.test_mode,
        external_ref: None,
        restaurant_id: snap.restaurant_id,
        customer_id: Some(snap.customer_id),
        customer_contact: snap.customer_contact,
        service_type: snap.service_type,
        delivery_address: snap.delivery_address,
        items: snap.items,
        total_amount: snap.total_amount,
        breakdown: snap.breakdown,
        note: snap.note,
        replacement_of: None,
        payment_intent_id: Some(payment_intent_id),
    }
}

/// The order materialized from the frozen checkout, under the run's order id, paid by the intent.
pub fn order_placed_from_checkout(order_id: u128, snap: CheckoutSnapshot, payment_intent_id: String) -> (o: OrderPlaced)
    ensures
        o == order_from_checkout(order_id, snap, payment_intent_id),
{
    OrderPlaced {
        order_id,
        test_mode: snap.test_mode,
        external_ref: None,
        restaurant_id: snap.restaurant_id,
        customer_id: Some(snap.customer_id),
        customer_contact: snap.customer_contact,
        service_type: snap.service_type,
        delivery_address: snap.delivery_address,
        items: snap.items,
        total_amount: snap.total_amount,
        breakdown: snap.breakdown,
        note: snap.note,
        replacement_of: None,
        payment_intent_id: Some(payment_intent_id),
    }
}

/// What a captured payment does to an awaiting run (see `on_payment_captured`).
pub open spec fn capture_outcome(row: PaymentProcessRow, checkout: Option<CheckoutSnapshot>,
    order_already_placed: bool, cart_open: bool, event_id: u128, r: Result<CaptureEffects, DomainError>) -> bool
{
    match checkout {
        None => r is Err && r->Err_0.rejected_code() == Some("PaymentEventOrphaned"@)
            && r->Err_0.context_value("paymentIntentId"@) == Some(ContextValue::Text(row.payment_intent_id)),
        Some(snap) => r matches Ok(fx) && {
            &&& fx.order_placed == if order_already_placed {
                    None
                } else {
                    Some(order_from_checkout(row.order_id, snap, row.payment_intent_id))
                }
            &&& fx.cart_checked_out == if cart_open {
                    Some(CartCheckedOut { cart_id: row.cart_id, order_id: row.order_id })
                } else {
                    None
                }
            &&& resolved_as(fx.run, row, true, event_id)
        },
    }
}

/// The effects of a captured payment on an awaiting run, given the frozen checkout (`None` when the
/// payment's birth is missing: the orphan error), whether the order is already placed and whether the
/// cart is still open. Each delivery is idempotent against its target: an order already placed gains
/// nothing, a cart no longer open is not checked out again.
pub fn on_payment_captured(row: PaymentProcessRow, checkout: Option<CheckoutSnapshot>, order_already_placed: bool,
    cart_open: bool, event_id: u128) -> (r: Result<CaptureEffects, DomainError>)
    ensures
        capture_outcome(row, checkout, order_already_placed, cart_open, event_id, r),
{
    let snap = match checkout {
        None => {
            return Err(orphaned(&row.payment_intent_id));
        }
        Some(s) => s,
    };
    let order_placed = if order_already_placed {
        None
    } else {
        Some(order_placed_from_checkout(row.order_id, snap, row.payment_intent_id.clone()))
    };
    let cart_checked_out = if cart_open {
        Some(CartCheckedOut { cart_id: row.cart_id, order_id: row.order_id })
    } else {
        None
    };
    let run = resolved_run(row, true, event_id);
    Ok(CaptureEffects { order_placed, cart_checked_out, run })
}

/// A captured payment materializes the order the customer checked out: every field of the frozen
/// checkout is carried over as it was frozen — restaurant, customer, contact, service type, delivery
/// address, lines, total, breakdown, note and test mode — under the run's order id, paid by the run's
/// intent, with no external reference and replacing nothing; and the cart, if still open, is checked
/// out into that order.
pub proof fn law_captured_order_is_the_frozen_checkout(row: PaymentProcessRow, snap: CheckoutSnapshot, cart_open: bool,
    event_id: u128, r: Result<CaptureEffects, DomainError>)
    requires
        capture_outcome(row, Some(snap), false, cart_open, event_id, r),
    ensures
        r matches Ok(fx) && fx.order_placed matches Some(o) && {
            &&& o.order_id == row.order_id
            &&& o.restaurant_id == snap.restaurant_id
            &&& o.customer_id == Some(snap.customer_id)
            &&& o.customer_contact == snap.customer_contact
            &&& o.service_type == snap.service_type
            &&& o.delivery_address == snap.delivery_address
            &&& o.items == snap.items
            &&& o.total_amount == snap.total_amount
            &&& o.breakdown == snap.breakdown
            &&& o.note == snap.note
            &&& o.test_mode == snap.test_mode
            &&& o.external_ref is None
            &&& o.replacement_of is None
            &&& o.payment_intent_id == Some(row.payment_intent_id)
        },
        cart_open ==> (r matches Ok(fx) && fx.cart_checked_out matches Some(c)
            && c.cart_id == row.cart_id && c.order_id == row.order_id),
{
}

/// The order built from a frozen checkout carries each of the checkout's fields as frozen.
pub proof fn law_order_from_checkout_keeps_every_field(order_id: u128, snap: CheckoutSnapshot, payment_intent_id: String,
    o: OrderPlaced)
    requires
        o == order_from_checkout(order_id, snap, payment_intent_id),
    ensures
        o.order_id == order_id,
        o.restaurant_id == snap.restaurant_id,
        o.customer_id == Some(snap.customer_id),
        o.customer_contact == snap.customer_contact,
        o.service_type == snap.service_type,
        o.delivery_address == snap.delivery_address,
        o.items == snap.items,
        o.total_amount == snap.total_amount,
        o.breakdown == snap.breakdown,
        o.note == snap.note,
        o.test_mode == snap.test_mode,
        o.external_ref is None,
        o.replacement_of is None,
        o.payment_intent_id == Some(payment_intent_id),
{
}

/// A payment outcome re-delivered after its run resolved is a benign skip, and the capture leg
/// replayed after a complete reaction (order placed, cart checked out) delivers nothing more.
pub proof fn law_payment_outcome_is_redelivery_safe(payment_intent_id: String, row: PaymentProcessRow,
    checked: Result<HookOutcome<PaymentProcessRow>, DomainError>, awaiting: PaymentProcessRow,
    snap: CheckoutSnapshot, event_id: u128, replay: Result<CaptureEffects, DomainError>)
    requires
        row.process_status != PaymentProcessStatus::AwaitingPaymentResult,
        run_check_outcome(payment_intent_id, Some(row), checked),
        capture_outcome(awaiting, Some(snap), true, false, event_id, replay),
    ensures
        checked matches Ok(HookOutcome::Skip(m)) && m@ == already_resolved_reason(payment_intent_id@, row.process_status),
        replay matches Ok(fx) && fx.order_placed is None && fx.cart_checked_out is None,
{
}

/// What the payment-run check answers.
pub open spec fn run_check_outcome(payment_intent_id: String, run: Option<PaymentProcessRow>,
    r: Result<HookOutcome<PaymentProcessRow>, DomainError>) -> bool
{
    match run {
        None => r is Err && r->Err_0.rejected_code() == Some("PaymentEventOrphaned"@),
        Some(row) => if row.process_status == PaymentProcessStatus::AwaitingPaymentResult {
            r == Ok::<HookOutcome<PaymentProcessRow>, DomainError>(HookOutcome::Ready(row))
        } else {
            r matches Ok(HookOutcome::Skip(m)) && m@ == already_resolved_reason(payment_intent_id@, row.process_status)
        },
    }
}

// ---------------------------------------------------------------------------------------------
// Settlement
// ---------------------------------------------------------------------------------------------

/// Why a capture failed.
#[derive(Debug, Clone, Copy, PartialEq, Eq, Structural)]
pub enum CaptureFailureReason {
    CardDeclined,
    AuthorizationExpired,
    GatewayRefused,
    GatewayUnavailable,
}

/// The reason a capture error is recorded under: a decline (a `PaymentDeclined` invariant or
/// rejection) is a declined card; an invariant mentioning an expired or cancelled authorization is an
/// expired authorization; any other invariant or rejection is a gateway refusal; a repository fault is
/// the gateway being unavailable.
pub open spec fn capture_failure_reason(err: DomainError) -> CaptureFailureReason {
    match err {
        DomainError::Invariant(msg) => if starts_with(msg@, "PaymentDeclined"@) {
            CaptureFailureReason::CardDeclined
        } else if contains_run(msg@, "expired"@) || contains_run(msg@, "canceled"@) || contains_run(msg@, "cancelled"@) {
            CaptureFailureReason::AuthorizationExpired
        } else {
            CaptureFailureReason::GatewayRefused
        },
        DomainError::Rejected { code, .. } => if code@ == "PaymentDeclined"@ {
            CaptureFailureReason::CardDeclined
        } else {
            CaptureFailureReason::GatewayRefused
        },
        DomainError::Repository(_) => CaptureFailureReason::GatewayUnavailable,
    }
}

/// The recorded detail of a capture error: the first 500 characters of its text.
pub open spec fn capture_failure_detail(err: DomainError) -> Seq<char> {
    let t = error_text_spec(err);
    if t.len() <= 500 { t } else { t.take(500) }
}

/// Classifies a capture error into its typed reason and bounded detail.
pub fn classify_capture_error(err: &DomainError) -> (r: (CaptureFailureReason, String))
    ensures
        r.0 == capture_failure_reason(*err),
        r.1@ == capture_failure_detail(*err),
{
    let text = chars_of(error_text(err).as_str());
    let mut detail = String::new();
    let mut i: usize = 0;
    while i < text.len() && i < 500
        invariant
            i <= text@.len(),
            i <= 500,
            detail@ == text@.take(i as int),
        decreases text.len() - i,
    {
        crate::text::push_char(&mut detail, text[i]);
        i += 1;
        assert(detail@ =~= text@.take(i as int));
    }
    proof {
        if text@.len() <= 500 {
            assert(text@.take(text@.len() as int) =~= text@);
        }
    }
    let reason = match err {
        DomainError::Invariant(msg) => {
            let m = chars_of(msg.as_str());
            if vec_starts_with(&m, "PaymentDeclined") {
                CaptureFailureReason::CardDeclined
            } else if vec_contains_run(&m, "expired") || vec_contains_run(&m, "canceled") || vec_contains_run(&m, "cancelled") {
                CaptureFailureReason::AuthorizationExpired
            } else {
                CaptureFailureReason::GatewayRefused
            }
        }
        DomainError::Rejected { code, .. } => {
            if same_text(code, "PaymentDeclined") {
                CaptureFailureReason::CardDeclined
            } else {
                CaptureFailureReason::GatewayRefused
            }
        }
        DomainError::Repository(_) => CaptureFailureReason::GatewayUnavailable,
    };
    (reason, detail)
}

/// The typed capture failure recorded on the payment's stream.
#[derive(Debug, Clone, PartialEq, Eq)]
pub struct PaymentCaptureFailed {
    pub payment_intent_id: String,
    pub order_id: u128,
    pub restaurant_id: u128,
    pub reason: CaptureFailureReason,
    pub detail: Option<String>,
}

/// The failure fact of a capture the gateway did not take.
pub fn capture_failed(payment_intent_id: String, order_id: u128, restaurant_id: u128, err: &DomainError)
    -> (f: PaymentCaptureFailed)
    ensures
        f.payment_intent_id == payment_intent_id,
        f.order_id == order_id,
        f.restaurant_id == restaurant_id,
        f.reason == capture_failure_reason(*err),
        f.detail matches Some(d) && d@ == capture_failure_detail(*err),
{
    let (reason, detail) = classify_capture_error(err);
    PaymentCaptureFailed { payment_intent_id, order_id, restaurant_id, reason, detail: Some(detail) }
}

/// What the settlement legs read of an order.
#[derive(Debug, Clone, PartialEq, Eq)]
pub struct OrderRead {
    pub payment_status: String,
}

/// What the gateway is asked to capture or release.
#[derive(Debug, Clone, PartialEq, Eq)]
pub struct PaymentIntentInput {
    pub payment_intent_id: String,
}

/// The settlement legs' hooks: the order read (which remembers the order's intent), the capture and
/// release inputs (which record that the gateway was attempted).
pub struct SettlementHooks<'a, O: OrderReadRepository> {
    pub orders: &'a O,
    pub intent: Option<String>,
    pub attempted: bool,
}

impl<'a, O: OrderReadRepository> SettlementHooks<'a, O> {
    /// Fresh hooks over the order read model.
    pub fn new(orders: &'a O) -> (h: Self)
        ensures
            h.intent is None,
            !h.attempted,
    {
        SettlementHooks { orders, intent: None, attempted: false }
    }

    /// The intent the gateway was attempted on, if a call was made.
    pub fn attempted_intent(&self) -> (r: Option<String>)
        ensures
            r == (if self.attempted { self.intent } else { None }),
    {
        if self.attempted {
            crate::pm_state::copy_text(&self.intent)
        } else {
            None
        }
    }

    /// Reads the order to settle: an order the read model lacks, or one without a payment intent
    /// (a zero-value replacement, an order paid on a partner's rails), is a benign skip; otherwise its
    /// intent is remembered and its payment status handed on.
    pub fn load_order(&mut self, order_id: u128) -> (r: Result<HookOutcome<OrderRead>, DomainError>)
        ensures
            final(self).orders == old(self).orders,
            final(self).attempted == old(self).attempted,
            exists|a: Result<Option<OrderTrackingRow>, DomainError>| old(self).orders.order_answer(order_id, a) && match a {
                Err(e) => r == Err::<HookOutcome<OrderRead>, DomainError>(e) && final(self).intent == old(self).intent,
                Ok(None) => (r matches Ok(h) && h is Skip) && final(self).intent == old(self).intent,
                Ok(Some(o)) => match o.payment_intent_id {
                    None => (r matches Ok(h) && h is Skip) && final(self).intent == old(self).intent,
                    Some(i) => r == Ok::<HookOutcome<OrderRead>, DomainError>(HookOutcome::Ready(OrderRead {
                            payment_status: o.payment_status,
                        }))
                        && final(self).intent == Some(i),
                },
            },
    {
        let found = self.orders.by_id(order_id);
        let found = match found {
            Err(e) => {
                return Err(e);
            }
            Ok(f) => f,
        };
        let o = match found {
            None => {
                return Ok(HookOutcome::Skip(String::from_str("the order is not in the order-tracking read model — nothing to settle")));
            }
            Some(o) => o,
        };
        let intent = match o.payment_intent_id {
            None => {
                return Ok(HookOutcome::Skip(String::from_str("the order carries no payment intent — nothing held to capture or release")));
            }
            Some(i) => i,
        };
        self.intent = Some(intent);
        Ok(HookOutcome::Ready(OrderRead { payment_status: o.payment_status }))
    }

    /// The capture input: the remembered intent; the gateway is now attempted.
    pub fn capture_input(&mut self) -> (r: HookOutcome<PaymentIntentInput>)
        requires
            old(self).intent is Some,
        ensures
            final(self).orders == old(self).orders,
            final(self).attempted,
            final(self).intent == old(self).intent,
            r == HookOutcome::Ready(PaymentIntentInput { payment_intent_id: old(self).intent->0 }),
    {
        let intent = crate::pm_state::copy_text(&self.intent);
        self.attempted = true;
        match intent {
            Some(i) => HookOutcome::Ready(PaymentIntentInput { payment_intent_id: i }),
            None => HookOutcome::Skip(String::new()),
        }
    }

    /// The front of every settlement leg, capture and release alike — read, guard, call input. An
    /// order the read model lacks, one without a payment intent, or one whose payment is not
    /// `AUTHORIZED` (already captured, released or refunded) is a benign skip, and the gateway is
    /// never asked; an authorized order's intent is what the gateway is asked to settle, and the
    /// gateway is then attempted; an error of the read propagates with nothing attempted.
    pub fn settlement_request(&mut self, order_id: u128) -> (r: Result<HookOutcome<PaymentIntentInput>, DomainError>)
        requires
            !old(self).attempted,
        ensures
            final(self).orders == old(self).orders,
            exists|a: Result<Option<OrderTrackingRow>, DomainError>| old(self).orders.order_answer(order_id, a) && match a {
                Err(e) => r == Err::<HookOutcome<PaymentIntentInput>, DomainError>(e) && !final(self).attempted,
                Ok(None) => (r matches Ok(h) && h is Skip) && !final(self).attempted,
                Ok(Some(o)) => match o.payment_intent_id {
                    Some(i) => if o.payment_status@ == "AUTHORIZED"@ {
                        &&& r == Ok::<HookOutcome<PaymentIntentInput>, DomainError>(HookOutcome::Ready(
                                PaymentIntentInput { payment_intent_id: i }))
                        &&& final(self).attempted
                        &&& final(self).intent == Some(i)
                    } else {
                        (r matches Ok(h) && h is Skip) && !final(self).attempted
                    },
                    None => (r matches Ok(h) && h is Skip) && !final(self).attempted,
                },
            },
    {
        let read = self.load_order(order_id);
        match read {
            Err(e) => Err(e),
            Ok(HookOutcome::Skip(reason)) => Ok(HookOutcome::Skip(reason)),
            Ok(HookOutcome::Ready(o)) => {
                if same_text(&o.payment_status, "AUTHORIZED") {
                    Ok(self.capture_input())
                } else {
                    let mut reason = String::from_str("the payment is ");
                    reason.append(o.payment_status.as_str());
                    reason.append(", not AUTHORIZED — no hold to capture or release");
                    Ok(HookOutcome::Skip(reason))
                }
            }
        }
    }

    /// The release input: the remembered intent; the gateway is now attempted.
    pub fn release_input(&mut self) -> (r: HookOutcome<PaymentIntentInput>)
        requires
            old(self).intent is Some,
        ensures
            final(self).orders == old(self).orders,
            final(self).attempted,
            final(self).intent == old(self).intent,
            r == HookOutcome::Ready(PaymentIntentInput { payment_intent_id: old(self).intent->0 }),
    {
        self.capture_input()
    }
}

/// What a failed capture leaves to record on the payment's stream: nothing when the failure came
/// before the gateway was attempted (`attempted` is `None`: the read failed), nothing when the
/// payment's own fold already records the failure; otherwise the typed `PaymentCaptureFailed` of the
/// attempted intent, for the order and restaurant, with the error's reason and detail.
pub open spec fn failure_to_record(attempted: Option<String>, err: DomainError, order_id: u128, restaurant_id: u128,
    fold_already_records: Option<bool>, r: Option<PaymentCaptureFailed>) -> bool
{
    match attempted {
        None => r is None,
        Some(i) => if fold_already_records == Some(true) {
            r is None
        } else {
            r matches Some(f) && {
                &&& f.payment_intent_id == i
                &&& f.order_id == order_id
                &&& f.restaurant_id == restaurant_id
                &&& f.reason == capture_failure_reason(err)
                &&& f.detail matches Some(d) && d@ == capture_failure_detail(err)
            }
        },
    }
}

/// The failure branch of the capture leg (see `failure_to_record`); the capture's error itself
/// still propagates to the caller — recorded and loud.
pub fn capture_failure_to_record(attempted: Option<String>, err: &DomainError, order_id: u128, restaurant_id: u128,
    fold_already_records: Option<bool>) -> (r: Option<PaymentCaptureFailed>)
    ensures
        failure_to_record(attempted, *err, order_id, restaurant_id, fold_already_records, r),
{
    match attempted {
        None => None,
        Some(i) => {
            if payment_not_recorded(fold_already_records) {
                Some(capture_failed(i, order_id, restaurant_id, err))
            } else {
                None
            }
        }
    }
}

/// What the capture leg decides once the gateway answered `capture` (see `after_capture`).
pub open spec fn capture_leg_outcome(attempted: Option<String>, capture: Result<(), DomainError>, order_id: u128,
    restaurant_id: u128, fold_already_records: Option<bool>, r: (Option<PaymentCaptureFailed>, Result<(), DomainError>)) -> bool
{
    match capture {
        Ok(()) => r.0 is None && r.1 is Ok,
        Err(e) => r.1 == Err::<(), DomainError>(e)
            && failure_to_record(attempted, e, order_id, restaurant_id, fold_already_records, r.0),
    }
}

/// What the capture leg decides once the gateway answered the capture: a capture taken answers
/// success and records nothing; a refused capture records what `failure_to_record` says and still
/// answers the gateway's own error — recorded and loud. (Should appending the record fail, that
/// append's error is what the leg answers.)
pub fn after_capture(attempted: Option<String>, capture: Result<(), DomainError>, order_id: u128, restaurant_id: u128,
    fold_already_records: Option<bool>) -> (r: (Option<PaymentCaptureFailed>, Result<(), DomainError>))
    ensures
        capture_leg_outcome(attempted, capture, order_id, restaurant_id, fold_already_records, r),
{
    match capture {
        Ok(()) => (None, Ok(())),
        Err(e) => {
            let record = capture_failure_to_record(attempted, &e, order_id, restaurant_id, fold_already_records);
            (record, Err(e))
        }
    }
}

/// The capture leg never swallows the gateway's refusal: whenever the capture fails, the leg answers
/// that same error, and records at most one failure, never when the failure came before the call.
pub proof fn law_capture_leg_answers_the_gateway_error(attempted: Option<String>, e: DomainError, order_id: u128,
    restaurant_id: u128, fold_already_records: Option<bool>, r: (Option<PaymentCaptureFailed>, Result<(), DomainError>))
    requires
        capture_leg_outcome(attempted, Err(e), order_id, restaurant_id, fold_already_records, r),
    ensures
        r.1 == Err::<(), DomainError>(e),
        attempted is None ==> r.0 is None,
        r.0 matches Some(f) ==> f.reason == capture_failure_reason(e) && f.order_id == order_id,
{
}

/// A capture failure is recorded once: a redelivered trigger whose capture fails again, on a
/// payment whose fold already records the failure, records nothing more; a failure before the
/// gateway call records nothing at all.
pub proof fn law_capture_failure_recorded_once(attempted: Option<String>, err: DomainError, order_id: u128,
    restaurant_id: u128, fold_already_records: Option<bool>, r: Option<PaymentCaptureFailed>)
    requires
        attempted is None || fold_already_records == Some(true),
        failure_to_record(attempted, err, order_id, restaurant_id, fold_already_records, r),
    ensures
        r is None,
{
}

/// Whether a payment fact must be appended to the payment's stream: unless the payment's own fold
/// already records it (`Some(true)`); a stream with no birth (`None`) still records it, facts being
/// never dropped.
pub fn payment_not_recorded(fold_already_records: Option<bool>) -> (b: bool)
    ensures
        b == !(fold_already_records == Some(true)),
{
    match fold_already_records {
        Some(already) => !already,
        None => true,
    }
}

} // verus!
