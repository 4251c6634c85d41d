//! The checkout: the guards a `PlaceOrder` must pass before any payment is requested, the store
//! credit it spends, the payment-intent fact that freezes the server-priced checkout, the checkout
//! run it opens, and the zero-value replacement order a resolved claim places.

use vstd::prelude::*;
use crate::cart::{cart_not_found, cart_not_open, CartState, CartStatus};
use crate::errors::{reject, reject1, reject2, reject3, ContextValue, DomainError};
use crate::model::{is_zero_breakdown, zero_breakdown, Money, OrderLineItem, PaymentBreakdown};
use crate::pm_state::{PaymentProcessRow, PaymentProcessStatus, PaymentStatus};
use crate::pricing::PricedCart;

verus! {

/// A restaurant's life-cycle status.
#[derive(Debug, Clone, Copy, PartialEq, Eq, Structural)]
pub enum RestaurantStatus {
    Draft,
    Active,
    Inactive,
}

/// Whether a restaurant takes orders right now.
#[derive(Debug, Clone, Copy, PartialEq, Eq, Structural)]
pub enum OrderAcceptanceMode {
    Normal,
    Paused,
}

impl OrderAcceptanceMode {
    /// The mode's wire name.
    pub open spec fn wire_name(self) -> Seq<char> {
        match self {
            OrderAcceptanceMode::Normal => "NORMAL"@,
            OrderAcceptanceMode::Paused => "PAUSED"@,
        }
    }

    /// The mode's wire name, as the catalogued rejections render it.
    pub fn as_str(self) -> (s: &'static str)
        ensures
            s@ == self.wire_name(),
    {
        match self {
            OrderAcceptanceMode::Normal => "NORMAL",
            OrderAcceptanceMode::Paused => "PAUSED",
        }
    }
}

/// The service-hours verdict at the evaluation instant.
#[derive(Debug, Clone, Copy, PartialEq, Eq, Structural)]
pub enum ServiceWindowVerdict {
    Open,
    OutsideHours,
    HoursUndeclared,
}

/// How the order reaches the customer.
#[derive(Debug, Clone, Copy, PartialEq, Eq, Structural)]
pub enum ServiceType {
    Delivery,
    Collection,
}

/// What the checkout reads of the restaurant, folded from its own stream.
#[derive(Debug, Clone, PartialEq, Eq)]
pub struct CheckoutRestaurant {
    pub restaurant_id: u128,
    pub display_name: String,
    pub status: RestaurantStatus,
    pub order_acceptance: OrderAcceptanceMode,
    /// The restaurant was registered in test mode.
    pub registered_for_test: bool,
    pub timezone: Option<String>,
}

/// The service-hours evaluation at the checkout instant; the instants are RFC 3339 texts in `Z`.
#[derive(Debug, Clone, PartialEq, Eq)]
pub struct ServiceWindow {
    pub verdict: ServiceWindowVerdict,
    pub opens_at: Option<String>,
    pub window_from: Option<String>,
    pub last_order_at: Option<String>,
}

/// The `PlaceOrder` command. The contact and the address are carried as given.
#[derive(Debug, Clone, PartialEq, Eq)]
pub struct PlaceOrder {
    pub order_id: u128,
    pub cart_id: u128,
    pub restaurant_id: u128,
    pub customer_id: u128,
    /// A test-mode order (absent mode = live).
    pub test_mode: bool,
    pub customer_contact: String,
    pub service_type: ServiceType,
    pub delivery_address: Option<String>,
    pub expected_total: Option<Money>,
    pub payment_method_id: String,
    pub note: Option<String>,
}

/// The first guard of the checkout that refuses, by code, or `None` when all pass: the restaurant
/// exists, is active and not paused, a live order never targets a test restaurant, the service-hours
/// guard (when enforced) is not outside hours, and the cart exists, is open, belongs to the
/// restaurant and holds a line.
pub open spec fn checkout_refusal(cmd: PlaceOrder, restaurant: Option<CheckoutRestaurant>, window: ServiceWindow,
    enforce_service_hours_guard: bool, cart: Option<CartState>) -> Option<Seq<char>>
{
    match restaurant {
        None => Some("RestaurantNotFound"@),
        Some(r) => if r.status != RestaurantStatus::Active {
            Some("RestaurantNotActive"@)
        } else if r.order_acceptance == OrderAcceptanceMode::Paused {
            Some("RestaurantPaused"@)
        } else if r.registered_for_test && !cmd.test_mode {
            Some("CannotOrderTestRestaurant"@)
        } else if enforce_service_hours_guard && window.verdict == ServiceWindowVerdict::OutsideHours {
            Some("OutsideServiceHours"@)
        } else {
            match cart {
                None => Some("CartNotFound"@),
                Some(c) => if c.status != CartStatus::Open {
                    Some("CartNotOpen"@)
                } else if c.restaurant_id != cmd.restaurant_id {
                    Some("CartRestaurantMismatch"@)
                } else if c.lines@.len() == 0 {
                    Some("CartEmpty"@)
                } else {
                    None
                },
            }
        },
    }
}

/// Whether a refusal code is one of the restaurant's guards.
pub open spec fn is_restaurant_refusal(code: Seq<char>) -> bool {
    code == "RestaurantNotFound"@ || code == "RestaurantNotActive"@ || code == "RestaurantPaused"@
        || code == "CannotOrderTestRestaurant"@ || code == "OutsideServiceHours"@
}

/// The cart guards' codes are none of the restaurant guards'.
proof fn lemma_cart_codes_are_not_restaurant_codes()
    ensures
        !is_restaurant_refusal("CartNotFound"@),
        !is_restaurant_refusal("CartNotOpen"@),
        !is_restaurant_refusal("CartRestaurantMismatch"@),
        !is_restaurant_refusal("CartEmpty"@),
{
    reveal_strlit("RestaurantNotFound");
    reveal_strlit("RestaurantNotActive");
    reveal_strlit("RestaurantPaused");
    reveal_strlit("CannotOrderTestRestaurant");
    reveal_strlit("OutsideServiceHours");
    reveal_strlit("CartNotFound");
    reveal_strlit("CartNotOpen");
    reveal_strlit("CartRestaurantMismatch");
    reveal_strlit("CartEmpty");
    assert("CartRestaurantMismatch"@.len() == 22);
    assert("CartNotFound"@.len() == 12);
    assert("CartNotOpen"@.len() == 11);
    assert("CartEmpty"@.len() == 9);
    assert("RestaurantNotFound"@.len() == 18);
    assert("RestaurantNotActive"@.len() == 19);
    assert("RestaurantPaused"@.len() == 16);
    assert("CannotOrderTestRestaurant"@.len() == 25);
    assert("OutsideServiceHours"@.len() == 19);
}

/// A text context value, or the explicit absence.
fn text_or_absent(t: &Option<String>) -> (v: ContextValue)
    ensures
        match *t {
            Some(s) => v == ContextValue::Text(s),
            None => v == ContextValue::Absent,
        },
{
    match t {
        Some(s) => ContextValue::Text(s.clone()),
        None => ContextValue::Absent,
    }
}

/// The `OutsideServiceHours` refusal: the next opening slot plus the evidence of the evaluation.
fn outside_service_hours(r: &CheckoutRestaurant, window: &ServiceWindow, evaluated_at: &String) -> (e: DomainError)
    ensures
        e.rejected_code() == Some("OutsideServiceHours"@),
        e.context_value("restaurantId"@) == Some(ContextValue::Id(r.restaurant_id)),
{
    proof {
        reveal_strlit("restaurantId");
        reveal_strlit("restaurantName");
        reveal_strlit("nextOpensAt");
        reveal_strlit("windowFrom");
        reveal_strlit("windowTo");
        reveal_strlit("timezone");
        reveal_strlit("evaluatedAt");
    }
    let mut context = Vec::new();
    context.push(crate::errors::field("restaurantId", ContextValue::Id(r.restaurant_id)));
    context.push(crate::errors::field("restaurantName", ContextValue::Text(r.display_name.clone())));
    context.push(crate::errors::field("nextOpensAt", text_or_absent(&window.opens_at)));
    context.push(crate::errors::field("windowFrom", text_or_absent(&window.window_from)));
    context.push(crate::errors::field("windowTo", text_or_absent(&window.last_order_at)));
    context.push(crate::errors::field("timezone", text_or_absent(&r.timezone)));
    context.push(crate::errors::field("evaluatedAt", ContextValue::Text(evaluated_at.clone())));
    let e = reject("OutsideServiceHours", context);
    proof {
        let c = e->context;
        assert(c@[0].key@ == "restaurantId"@);
        assert forall|i: int| 0 <= i < c@.len() && (#[trigger] c@[i]).key@ == "restaurantId"@ implies i == 0 by {
            if i == 1 {
                assert(c@[i].key@.len() != "restaurantId"@.len());
            } else if i != 0 {
                assert(c@[i].key@[0] != "restaurantId"@[0]);
            }
        }
    }
    e
}

/// A refusal naming the restaurant by id and name.
fn restaurant_refusal(code: &str, r: &CheckoutRestaurant) -> (e: DomainError)
    ensures
        e.rejected_code() == Some(code@),
        e.context_value("restaurantId"@) == Some(ContextValue::Id(r.restaurant_id)),
{
    proof {
        reveal_strlit("restaurantId");
        reveal_strlit("restaurantName");
        assert("restaurantId"@.len() != "restaurantName"@.len());
    }
    reject2(code, "restaurantId", ContextValue::Id(r.restaurant_id), "restaurantName",
        ContextValue::Text(r.display_name.clone()))
}

/// The checkout's guards before any external effect, in order (see `checkout_refusal`): the first
/// that refuses answers its catalogued rejection, naming the restaurant for the restaurant guards and
/// the cart for the cart guards. `evaluated_at` is the evaluation instant, as the refusal's evidence.
pub fn admit_checkout(cmd: &PlaceOrder, restaurant: &Option<CheckoutRestaurant>, window: &ServiceWindow,
    evaluated_at: &String, enforce_service_hours_guard: bool, cart: &Option<CartState>) -> (r: Result<(), DomainError>)
    ensures
        r is Ok <==> checkout_refusal(*cmd, *restaurant, *window, enforce_service_hours_guard, *cart) is None,
        r is Err ==> r->Err_0.rejected_code() == checkout_refusal(*cmd, *restaurant, *window, enforce_service_hours_guard, *cart),
        r is Err && is_restaurant_refusal(r->Err_0.rejected_code()->0)
            ==> r->Err_0.context_value("restaurantId"@) == Some(ContextValue::Id(cmd.restaurant_id)),
        r is Err && !is_restaurant_refusal(r->Err_0.rejected_code()->0)
            ==> r->Err_0.context_value("cartId"@) == Some(ContextValue::Id(cmd.cart_id)),
{
    proof {
        reveal_strlit("RestaurantNotFound");
        reveal_strlit("RestaurantNotActive");
        reveal_strlit("RestaurantPaused");
        reveal_strlit("CannotOrderTestRestaurant");
        reveal_strlit("OutsideServiceHours");
        reveal_strlit("CartNotFound");
        reveal_strlit("CartNotOpen");
        reveal_strlit("CartRestaurantMismatch");
        reveal_strlit("CartEmpty");
    }
    let rest = match restaurant {
        None => {
            return Err(reject1("RestaurantNotFound", "restaurantId", ContextValue::Id(cmd.restaurant_id)));
        }
        Some(rest) => rest,
    };
    admit_checkout_named(cmd, rest, window, evaluated_at, enforce_service_hours_guard, cart)
}

/// The guards once the restaurant is found.
fn admit_checkout_named(cmd: &PlaceOrder, rest: &CheckoutRestaurant, window: &ServiceWindow,
    evaluated_at: &String, enforce_service_hours_guard: bool, cart: &Option<CartState>) -> (r: Result<(), DomainError>)
    ensures
        r is Ok <==> checkout_refusal(*cmd, Some(*rest), *window, enforce_service_hours_guard, *cart) is None,
        r is Err ==> r->Err_0.rejected_code() == checkout_refusal(*cmd, Some(*rest), *window, enforce_service_hours_guard, *cart),
        r is Err && is_restaurant_refusal(r->Err_0.rejected_code()->0)
            ==> r->Err_0.context_value("restaurantId"@) == Some(ContextValue::Id(cmd.restaurant_id)),
        r is Err && !is_restaurant_refusal(r->Err_0.rejected_code()->0)
            ==> r->Err_0.context_value("cartId"@) == Some(ContextValue::Id(cmd.cart_id)),
{
    proof {
        reveal_strlit("RestaurantNotFound");
        reveal_strlit("RestaurantNotActive");
        reveal_strlit("RestaurantPaused");
        reveal_strlit("CannotOrderTestRestaurant");
        reveal_strlit("OutsideServiceHours");
        reveal_strlit("CartNotFound");
        reveal_strlit("CartNotOpen");
        reveal_strlit("CartRestaurantMismatch");
        reveal_strlit("CartEmpty");
        reveal_strlit("restaurantId");
        reveal_strlit("cartId");
    }
    proof {
        lemma_cart_codes_are_not_restaurant_codes();
    }
    let named = CheckoutRestaurant {
        restaurant_id: cmd.restaurant_id,
        display_name: rest.display_name.clone(),
        status: rest.status,
        order_acceptance: rest.order_acceptance,
        registered_for_test: rest.registered_for_test,
        timezone: match &rest.timezone { Some(t) => Some(t.clone()), None => None },
    };
    if rest.status != RestaurantStatus::Active {
        return Err(restaurant_refusal("RestaurantNotActive", &named));
    }
    if rest.order_acceptance == OrderAcceptanceMode::Paused {
        return Err(restaurant_refusal("RestaurantPaused", &named));
    }
    if rest.registered_for_test && !cmd.test_mode {
        return Err(reject1("CannotOrderTestRestaurant", "restaurantId", ContextValue::Id(cmd.restaurant_id)));
    }
    if enforce_service_hours_guard && window.verdict == ServiceWindowVerdict::OutsideHours {
        return Err(outside_service_hours(&named, window, evaluated_at));
    }
    let c = match cart {
        None => {
            return Err(cart_not_found(cmd.cart_id));
        }
        Some(c) => c,
    };
    if c.status != CartStatus::Open {
        return Err(cart_not_open(cmd.cart_id, c.status));
    }
    if c.restaurant_id != cmd.restaurant_id {
        proof {
            reveal_strlit("restaurantName");
            assert("cartId"@.len() != "restaurantId"@.len());
            assert("cartId"@.len() != "restaurantName"@.len());
            assert("restaurantId"@.len() != "restaurantName"@.len());
        }
        return Err(reject3("CartRestaurantMismatch", "cartId", ContextValue::Id(cmd.cart_id), "restaurantId",
            ContextValue::Id(cmd.restaurant_id), "restaurantName", ContextValue::Text(rest.display_name.clone())));
    }
    if c.lines.len() == 0 {
        return Err(reject1("CartEmpty", "cartId", ContextValue::Id(cmd.cart_id)));
    }
    Ok(())
}

/// The last guards before the gateway: a run of this cart still awaiting its payment outcome means
/// the checkout is already in flight (`Conflict`, so no second intent is ever created), and a delivery
/// order needs an address (`DeliveryAddressRequired`).
pub fn admit_single_flight(cmd: &PlaceOrder, run: &Option<PaymentProcessRow>) -> (r: Result<(), DomainError>)
    ensures
        (run matches Some(row) && row.process_status == PaymentProcessStatus::AwaitingPaymentResult)
            ==> r is Err && r->Err_0.rejected_code() == Some("Conflict"@),
        !(run matches Some(row) && row.process_status == PaymentProcessStatus::AwaitingPaymentResult)
            && cmd.service_type == ServiceType::Delivery && cmd.delivery_address is None
            ==> r is Err && r->Err_0.rejected_code() == Some("DeliveryAddressRequired"@),
        !(run matches Some(row) && row.process_status == PaymentProcessStatus::AwaitingPaymentResult)
            && !(cmd.service_type == ServiceType::Delivery && cmd.delivery_address is None) ==> r is Ok,
{
    match run {
        Some(row) => {
            if row.process_status == PaymentProcessStatus::AwaitingPaymentResult {
                return Err(reject("Conflict", Vec::new()));
            }
        }
        None => {}
    }
    if cmd.service_type == ServiceType::Delivery && cmd.delivery_address.is_none() {
        return Err(reject("DeliveryAddressRequired", Vec::new()));
    }
    Ok(())
}

/// The client's expected total is a confirmation only: when given, it must equal the server-priced
/// total (amount and currency), else `PriceMismatch`, so the customer is never charged an amount
/// other than the one displayed.
pub fn confirm_expected_total(cart_id: u128, expected: &Option<Money>, priced: &Money) -> (r: Result<(), DomainError>)
    ensures
        r is Ok <==> (expected matches Some(e) ==> e.amount_cents == priced.amount_cents && e.currency@ == priced.currency@),
        r is Err ==> r->Err_0.rejected_code() == Some("PriceMismatch"@)
            && r->Err_0.context_value("cartId"@) == Some(ContextValue::Id(cart_id))
            && r->Err_0.context_value("expectedAmountCents"@) == Some(ContextValue::Int(priced.amount_cents))
            && r->Err_0.context_value("submittedAmountCents"@) == Some(ContextValue::Int(expected->0.amount_cents)),
{
    match expected {
        None => Ok(()),
        Some(e) => {
            if e.same_as(priced) {
                Ok(())
            } else {
                proof {
                    reveal_strlit("cartId");
                    reveal_strlit("expectedAmountCents");
                    reveal_strlit("submittedAmountCents");
                    reveal_strlit("currency");
                }
                let mut context = Vec::new();
                context.push(crate::errors::field("cartId", ContextValue::Id(cart_id)));
                context.push(crate::errors::field("expectedAmountCents", ContextValue::Int(priced.amount_cents)));
                context.push(crate::errors::field("submittedAmountCents", ContextValue::Int(e.amount_cents)));
                context.push(crate::errors::field("currency", ContextValue::Text(priced.currency.clone())));
                let err = reject("PriceMismatch", context);
                proof {
                    let c = err->context;
                    assert(c@[0].key@ == "cartId"@);
                    assert(c@[1].key@ == "expectedAmountCents"@);
                    assert(c@[2].key@ == "submittedAmountCents"@);
                    assert("cartId"@.len() == 6);
                    assert("expectedAmountCents"@.len() == 19);
                    assert("submittedAmountCents"@.len() == 20);
                    assert("currency"@.len() == 8);
                    assert forall|i: int| 0 <= i < c@.len() && (#[trigger] c@[i]).key@ == "cartId"@ implies i == 0 by {
                        assert(c@[i].key@.len() != 6 || i == 0);
                    }
                    assert forall|i: int| 0 <= i < c@.len() && (#[trigger] c@[i]).key@ == "expectedAmountCents"@ implies i == 1 by {
                        assert(c@[i].key@.len() != 19 || i == 1);
                    }
                    assert forall|i: int| 0 <= i < c@.len() && (#[trigger] c@[i]).key@ == "submittedAmountCents"@ implies i == 2 by {
                        assert(c@[i].key@.len() != 20 || i == 2);
                    }
                }
                Err(err)
            }
        }
    }
}

// ---------------------------------------------------------------------------------------------
// Store credit
// ---------------------------------------------------------------------------------------------

/// One debit of a customer's credit, keyed by the order it paid for.
#[derive(Debug, Clone, PartialEq, Eq)]
pub struct CreditDebit {
    pub order_id: u128,
    pub amount_cents: i64,
}

/// A customer's store-credit ledger, folded from its stream: the available balance (granted minus
/// consumed), its currency, the debits per order and the claims already credited.
#[derive(Debug, Clone, PartialEq, Eq)]
pub struct CreditLedger {
    pub balance_cents: i64,
    pub currency: Option<String>,
    pub consumed: Vec<CreditDebit>,
    pub granted_for: Vec<u128>,
}

/// A fact on a customer's credit ledger.
#[derive(Debug, Clone, PartialEq, Eq)]
pub enum CreditEvent {
    CustomerCreditGranted { customer_id: u128, amount: Money, reclamation_id: u128 },
    CustomerCreditConsumed { customer_id: u128, amount: Money, order_id: u128 },
}

/// The amount already debited for `order_id`, if any (the first debit recorded for it).
pub open spec fn consumed_for(consumed: Seq<CreditDebit>, order_id: u128) -> Option<i64> {
    if exists|i: int| 0 <= i < consumed.len() && (#[trigger] consumed[i]).order_id == order_id {
        Some(consumed[choose|i: int| 0 <= i < consumed.len() && (#[trigger] consumed[i]).order_id == order_id
            && forall|j: int| 0 <= j < i ==> (#[trigger] consumed[j]).order_id != order_id].amount_cents)
    } else {
        None
    }
}

/// `v` clamped to `lo..=hi`.
pub open spec fn clamp(v: int, lo: int, hi: int) -> int {
    if v < lo { lo } else if v > hi { hi } else { v }
}

/// The credit a checkout of `order_id` for `total` applies: the amount already debited for this order
/// (retry-stable), else the balance up to the total when the ledger's currency is the order's, else 0.
pub open spec fn credit_to_apply_spec(ledger: Option<CreditLedger>, order_id: u128, total: Money) -> int {
    match ledger {
        None => 0,
        Some(l) => match consumed_for(l.consumed@, order_id) {
            Some(already) => clamp(already as int, 0, total.amount_cents as int),
            None => if (l.currency matches Some(c) && c@ == total.currency@) {
                clamp(l.balance_cents as int, 0, total.amount_cents as int)
            } else {
                0
            },
        },
    }
}

/// The debit already recorded for `order_id`.
fn debit_for(consumed: &Vec<CreditDebit>, order_id: u128) -> (r: Option<i64>)
    ensures
        r == consumed_for(consumed@, order_id),
{
    let mut i: usize = 0;
    while i < consumed.len()
        invariant
            i <= consumed@.len(),
            forall|j: int| 0 <= j < i ==> (#[trigger] consumed@[j]).order_id != order_id,
        decreases consumed.len() - i,
    {
        if consumed[i].order_id == order_id {
            proof {
                let k = choose|k: int| 0 <= k < consumed@.len() && (#[trigger] consumed@[k]).order_id == order_id
                    && forall|j: int| 0 <= j < k ==> (#[trigger] consumed@[j]).order_id != order_id;
                assert(consumed@[i as int].order_id == order_id);
                if k < i {
                    assert(consumed@[k].order_id != order_id);
                }
                if i < k {
                    assert(consumed@[i as int].order_id != order_id);
                }
            }
            return Some(consumed[i].amount_cents);
        }
        i += 1;
    }
    None
}

/// `v` clamped to `0..=hi`.
fn clamp_to(v: i64, hi: i64) -> (r: i64)
    requires
        0 <= hi,
    ensures
        r == clamp(v as int, 0, hi as int),
{
    if v < 0 { 0 } else if v > hi { hi } else { v }
}

/// Whether the applied credit is clamped to the order total: the ledger holds a debit for the order,
/// or its currency is the order's. (Clamping to a total below zero is impossible.)
pub open spec fn credit_clamps(ledger: Option<CreditLedger>, order_id: u128, total: Money) -> bool {
    match ledger {
        None => false,
        Some(l) => consumed_for(l.consumed@, order_id) is Some
            || (l.currency matches Some(c) && c@ == total.currency@),
    }
}

/// The store credit a checkout applies (see `credit_to_apply_spec`): never below 0, never above the
/// order total, so the buyer total is never negative; nothing when the ledger does not clamp.
pub fn credit_to_apply(ledger: &Option<CreditLedger>, order_id: u128, order_total: &Money) -> (applied: i64)
    requires
        credit_clamps(*ledger, order_id, *order_total) ==> order_total.amount_cents >= 0,
    ensures
        applied == credit_to_apply_spec(*ledger, order_id, *order_total),
        !credit_clamps(*ledger, order_id, *order_total) ==> applied == 0,
        order_total.amount_cents >= 0 ==> 0 <= applied <= order_total.amount_cents,
{
    let l = match ledger {
        None => {
            return 0;
        }
        Some(l) => l,
    };
    match debit_for(&l.consumed, order_id) {
        Some(already) => clamp_to(already, order_total.amount_cents),
        None => {
            let same_currency = match &l.currency {
                Some(c) => *c == order_total.currency,
                None => false,
            };
            if same_currency {
                clamp_to(l.balance_cents, order_total.amount_cents)
            } else {
                0
            }
        }
    }
}

/// What the buyer pays: the gross total less the applied credit, in the order's currency.
pub fn buyer_total(gross: &Money, applied: i64) -> (m: Money)
    requires
        0 <= applied <= gross.amount_cents,
    ensures
        m.amount_cents == gross.amount_cents - applied,
        m.currency == gross.currency,
        0 <= m.amount_cents <= gross.amount_cents,
{
    Money::of(gross.amount_cents - applied, &gross.currency)
}

/// Granting credit is at most once per resolved claim: a claim already credited grants nothing.
pub fn grant_customer_credit(customer_id: u128, amount: Money, reclamation_id: u128, ledger: &Option<CreditLedger>)
    -> (r: Option<CreditEvent>)
    ensures
        (ledger matches Some(l) && l.granted_for@.contains(reclamation_id)) ==> r is None,
        !(ledger matches Some(l) && l.granted_for@.contains(reclamation_id))
            ==> r == Some(CreditEvent::CustomerCreditGranted { customer_id, amount, reclamation_id }),
{
    match ledger {
        Some(l) => {
            if crate::cart::ids_contain(&l.granted_for, reclamation_id) {
                return None;
            }
        }
        None => {}
    }
    Some(CreditEvent::CustomerCreditGranted { customer_id, amount, reclamation_id })
}

/// Spending credit is exactly once per order and never more than the balance: an order already
/// debited spends nothing more (checked before the balance, so a replay never reads as an
/// overspend); an amount above the balance is `InsufficientCustomerCredit`.
pub fn consume_customer_credit(customer_id: u128, amount: Money, order_id: u128, ledger: &Option<CreditLedger>)
    -> (r: Result<Option<CreditEvent>, DomainError>)
    ensures
        (ledger matches Some(l) && consumed_for(l.consumed@, order_id) is Some)
            ==> r == Ok::<Option<CreditEvent>, DomainError>(None),
        !(ledger matches Some(l) && consumed_for(l.consumed@, order_id) is Some) ==> {
            let balance = match *ledger { Some(l) => l.balance_cents as int, None => 0 };
            if amount.amount_cents > balance {
                r is Err && r->Err_0.rejected_code() == Some("InsufficientCustomerCredit"@)
                    && r->Err_0.context_value("customerId"@) == Some(ContextValue::Id(customer_id))
            } else {
                r == Ok::<Option<CreditEvent>, DomainError>(Some(CreditEvent::CustomerCreditConsumed { customer_id, amount, order_id }))
            }
        },
{
    let balance: i64 = match ledger {
        Some(l) => {
            if debit_for(&l.consumed, order_id).is_some() {
                return Ok(None);
            }
            l.balance_cents
        }
        None => 0,
    };
    if amount.amount_cents > balance {
        return Err(reject1("InsufficientCustomerCredit", "customerId", ContextValue::Id(customer_id)));
    }
    Ok(Some(CreditEvent::CustomerCreditConsumed { customer_id, amount, order_id }))
}

/// The credit to spend once the gateway accepted the intent: the applied amount, in the order's
/// currency, keyed by the order — or nothing when no credit applied.
pub fn credit_spend(customer_id: u128, order_id: u128, applied: i64, gross: &Money) -> (r: Option<(u128, Money, u128)>)
    ensures
        applied > 0 ==> (r matches Some((c, m, o)) && c == customer_id && o == order_id
            && m.amount_cents == applied && m.currency == gross.currency),
        applied <= 0 ==> r is None,
{
    if applied > 0 {
        Some((customer_id, Money::of(applied, &gross.currency), order_id))
    } else {
        None
    }
}

// ---------------------------------------------------------------------------------------------
// The frozen checkout
// ---------------------------------------------------------------------------------------------

/// The priced checkout frozen onto the payment's birth fact, from which the capture leg later
/// materializes the order: the order's own (gross) value, its lines and breakdown, and the
/// service-hours evidence it was accepted under.
#[derive(Debug, Clone, PartialEq, Eq)]
pub struct CheckoutSnapshot {
    pub order_id: u128,
    pub cart_id: u128,
    pub restaurant_id: u128,
    pub customer_id: u128,
    pub test_mode: bool,
    pub customer_contact: String,
    pub service_type: ServiceType,
    pub delivery_address: Option<String>,
    pub items: Vec<OrderLineItem>,
    pub total_amount: Money,
    pub breakdown: PaymentBreakdown,
    pub note: Option<String>,
    pub verdict: ServiceWindowVerdict,
    pub window_from: Option<String>,
    pub window_to: Option<String>,
    pub timezone: Option<String>,
    pub evaluated_at: String,
}

/// The payment's birth fact: the intent charges the buyer total; the snapshot keeps the gross.
#[derive(Debug, Clone, PartialEq, Eq)]
pub struct PaymentIntentCreated {
    pub payment_intent_id: String,
    pub restaurant_id: u128,
    pub customer_id: u128,
    pub amount: Money,
    pub checkout: CheckoutSnapshot,
}

/// What the payment gateway answered for the requested intent.
#[derive(Debug, Clone, PartialEq, Eq)]
pub struct PaymentRequestOutput {
    pub payment_intent_id: String,
    pub client_secret: String,
}

/// `r` is the checkout's record once the gateway accepted `intent`: the payment's birth fact — the
/// intent for the buyer total (gross less the applied credit), the snapshot with the gross priced
/// checkout and the service-hours evidence — and the checkout run it opens, awaiting the payment
/// result, keyed by the cart.
pub open spec fn recorded_as(cmd: PlaceOrder, priced: PricedCart, applied: i64, window: ServiceWindow,
    timezone: Option<String>, evaluated_at: String, intent: PaymentRequestOutput, session_id: Option<u128>,
    r: (PaymentIntentCreated, PaymentProcessRow)) -> bool
{
    &&& r.0.payment_intent_id == intent.payment_intent_id
    &&& r.0.restaurant_id == cmd.restaurant_id
    &&& r.0.customer_id == cmd.customer_id
    &&& r.0.amount.amount_cents == priced.total_amount.amount_cents - applied
    &&& r.0.amount.currency == priced.total_amount.currency
    &&& r.0.checkout.order_id == cmd.order_id
    &&& r.0.checkout.cart_id == cmd.cart_id
    &&& r.0.checkout.restaurant_id == cmd.restaurant_id
    &&& r.0.checkout.customer_id == cmd.customer_id
    &&& r.0.checkout.test_mode == cmd.test_mode
    &&& r.0.checkout.customer_contact == cmd.customer_contact
    &&& r.0.checkout.service_type == cmd.service_type
    &&& r.0.checkout.delivery_address == cmd.delivery_address
    &&& r.0.checkout.items == priced.items
    &&& r.0.checkout.total_amount == priced.total_amount
    &&& r.0.checkout.breakdown == priced.breakdown
    &&& r.0.checkout.note == cmd.note
    &&& r.0.checkout.verdict == window.verdict
    &&& r.0.checkout.window_from == window.window_from
    &&& r.0.checkout.window_to == window.last_order_at
    &&& r.0.checkout.timezone == timezone
    &&& r.0.checkout.evaluated_at == evaluated_at
    &&& r.1.cart_id == cmd.cart_id
    &&& r.1.order_id == cmd.order_id
    &&& r.1.payment_intent_id == intent.payment_intent_id
    &&& r.1.process_status == PaymentProcessStatus::AwaitingPaymentResult
    &&& r.1.payment_status == PaymentStatus::Pending
    &&& r.1.customer_id == Some(cmd.customer_id)
    &&& r.1.session_id == session_id
    &&& r.1.client_secret == Some(intent.client_secret)
    &&& r.1.last_processed_stripe_event_id is None
}

/// The checkout's record once the gateway accepted the intent (see `recorded_as`).
pub fn checkout_recorded(cmd: PlaceOrder, priced: PricedCart, applied: i64, window: &ServiceWindow,
    timezone: Option<String>, evaluated_at: String, intent: PaymentRequestOutput, session_id: Option<u128>)
    -> (r: (PaymentIntentCreated, PaymentProcessRow))
    requires
        0 <= applied,
        applied == 0 || applied <= priced.total_amount.amount_cents,
    ensures
        recorded_as(cmd, priced, applied, *window, timezone, evaluated_at, intent, session_id, r),
{
    let amount = Money::of(priced.total_amount.amount_cents - applied, &priced.total_amount.currency);
    let row = PaymentProcessRow {
        cart_id: cmd.cart_id,
        order_id: cmd.order_id,
        payment_intent_id: intent.payment_intent_id.clone(),
        process_status: PaymentProcessStatus::AwaitingPaymentResult,
        payment_status: PaymentStatus::Pending,
        customer_id: Some(cmd.customer_id),
        session_id,
        client_secret: Some(intent.client_secret),
        last_processed_stripe_event_id: None,
        last_update_utc: 0,
    };
    let checkout = CheckoutSnapshot {
        order_id: cmd.order_id,
        cart_id: cmd.cart_id,
        restaurant_id: cmd.restaurant_id,
        customer_id: cmd.customer_id,
        test_mode: cmd.test_mode,
        customer_contact: cmd.customer_contact,
        service_type: cmd.service_type,
        delivery_address: cmd.delivery_address,
        items: priced.items,
        total_amount: priced.total_amount,
        breakdown: priced.breakdown,
        note: cmd.note,
        verdict: window.verdict,
        window_from: crate::pm_state::copy_text(&window.window_from),
        window_to: crate::pm_state::copy_text(&window.last_order_at),
        timezone,
        evaluated_at,
    };
    let event = PaymentIntentCreated {
        payment_intent_id: intent.payment_intent_id,
        restaurant_id: cmd.restaurant_id,
        customer_id: cmd.customer_id,
        amount,
        checkout,
    };
    (event, row)
}

/// The checkout guards refuse in order, each for its own reason only: no restaurant, then an
/// inactive one, then a paused one, then a live order to a test restaurant, then (when enforced)
/// outside service hours, then no cart, a cart no longer open, a cart of another restaurant, an
/// empty cart; an order none of them refuses is admitted.
pub proof fn law_checkout_guards_refuse_in_order(cmd: PlaceOrder, restaurant: Option<CheckoutRestaurant>,
    window: ServiceWindow, enforce_service_hours_guard: bool, cart: Option<CartState>, r: Result<(), DomainError>)
    requires
        r is Ok <==> checkout_refusal(cmd, restaurant, window, enforce_service_hours_guard, cart) is None,
        r is Err ==> r->Err_0.rejected_code() == checkout_refusal(cmd, restaurant, window, enforce_service_hours_guard, cart),
    ensures
        restaurant is None ==> r is Err && r->Err_0.rejected_code() == Some("RestaurantNotFound"@),
        restaurant matches Some(x) ==> {
            let live = x.status == RestaurantStatus::Active;
            let open = x.order_acceptance != OrderAcceptanceMode::Paused;
            let mode_ok = !(x.registered_for_test && !cmd.test_mode);
            let hours_ok = !(enforce_service_hours_guard && window.verdict == ServiceWindowVerdict::OutsideHours);
            &&& !live ==> r->Err_0.rejected_code() == Some("RestaurantNotActive"@)
            &&& live && !open ==> r->Err_0.rejected_code() == Some("RestaurantPaused"@)
            &&& live && open && !mode_ok ==> r->Err_0.rejected_code() == Some("CannotOrderTestRestaurant"@)
            &&& live && open && mode_ok && !hours_ok ==> r->Err_0.rejected_code() == Some("OutsideServiceHours"@)
            &&& live && open && mode_ok && hours_ok ==> match cart {
                None => r->Err_0.rejected_code() == Some("CartNotFound"@),
                Some(c) => if c.status != CartStatus::Open {
                    r->Err_0.rejected_code() == Some("CartNotOpen"@)
                } else if c.restaurant_id != cmd.restaurant_id {
                    r->Err_0.rejected_code() == Some("CartRestaurantMismatch"@)
                } else if c.lines@.len() == 0 {
                    r->Err_0.rejected_code() == Some("CartEmpty"@)
                } else {
                    r is Ok
                },
            }
        },
{
}

/// Test mode isolates in one direction only: a live order never reaches a test restaurant, but a
/// test order may target a live one. For an active, non-paused restaurant not registered for test,
/// with the service-hours guard passing and an open, non-empty cart of that restaurant, the checkout
/// guards admit the order whatever the command's test mode; for a test restaurant, a live order is
/// refused with `CannotOrderTestRestaurant` and a test order is not.
pub proof fn law_test_mode_isolates_one_way(cmd: PlaceOrder, rest: CheckoutRestaurant, window: ServiceWindow,
    enforce_service_hours_guard: bool, cart: CartState, r: Result<(), DomainError>)
    requires
        rest.status == RestaurantStatus::Active,
        rest.order_acceptance != OrderAcceptanceMode::Paused,
        !(enforce_service_hours_guard && window.verdict == ServiceWindowVerdict::OutsideHours),
        cart.status == CartStatus::Open,
        cart.restaurant_id == cmd.restaurant_id,
        cart.lines@.len() > 0,
        r is Ok <==> checkout_refusal(cmd, Some(rest), window, enforce_service_hours_guard, Some(cart)) is None,
        r is Err ==> r->Err_0.rejected_code()
            == checkout_refusal(cmd, Some(rest), window, enforce_service_hours_guard, Some(cart)),
    ensures
        !rest.registered_for_test ==> r is Ok,
        rest.registered_for_test && cmd.test_mode ==> r is Ok,
        rest.registered_for_test && !cmd.test_mode ==> r is Err
            && r->Err_0.rejected_code() == Some("CannotOrderTestRestaurant"@),
{
}

/// Store credit reduces only what the buyer pays, never what the order is worth: for any ledger, the
/// applied credit keeps the buyer total between zero and the gross total.
pub proof fn law_credit_never_overcharges(ledger: Option<CreditLedger>, order_id: u128, total: Money)
    requires
        total.amount_cents >= 0,
    ensures
        0 <= credit_to_apply_spec(ledger, order_id, total) <= total.amount_cents,
        0 <= total.amount_cents - credit_to_apply_spec(ledger, order_id, total) <= total.amount_cents,
{
}

/// A checkout retried for an order already debited applies exactly the recorded debit (within the
/// total), whatever the balance has become since.
pub proof fn law_credit_is_retry_stable(l1: CreditLedger, l2: CreditLedger, order_id: u128, total: Money)
    requires
        consumed_for(l1.consumed@, order_id) is Some,
        consumed_for(l2.consumed@, order_id) == consumed_for(l1.consumed@, order_id),
    ensures
        credit_to_apply_spec(Some(l1), order_id, total) == credit_to_apply_spec(Some(l2), order_id, total),
{
}

// ---------------------------------------------------------------------------------------------
// Orders
// ---------------------------------------------------------------------------------------------

/// The birth fact of an order.
#[derive(Debug, Clone, PartialEq, Eq)]
pub struct OrderPlaced {
    pub order_id: u128,
    pub test_mode: bool,
    /// The external system's import key, if the order came from one.
    pub external_ref: Option<String>,
    pub restaurant_id: u128,
    pub customer_id: Option<u128>,
    pub customer_contact: String,
    pub service_type: ServiceType,
    pub delivery_address: Option<String>,
    pub items: Vec<OrderLineItem>,
    pub total_amount: Money,
    pub breakdown: PaymentBreakdown,
    pub note: Option<String>,
    pub replacement_of: Option<u128>,
    pub payment_intent_id: Option<String>,
}

/// The replacement of a resolved claim's order: a new order carrying the original's lines and
/// delivery details, worth nothing (a zero total and a zero breakdown in the original's currency),
/// with no payment intent and no external reference, naming the order it replaces. A missing
/// original is `OrderNotFound`.
pub fn place_replacement_order(order_id: u128, original_order_id: u128, original: Option<OrderPlaced>)
    -> (r: Result<OrderPlaced, DomainError>)
    ensures
        original is None ==> r is Err && r->Err_0.rejected_code() == Some("OrderNotFound"@)
            && r->Err_0.context_value("orderId"@) == Some(ContextValue::Id(original_order_id)),
        original matches Some(o) ==> (r matches Ok(p) && {
            &&& p.order_id == order_id
            &&& p.test_mode == o.test_mode
            &&& p.external_ref is None
            &&& p.restaurant_id == o.restaurant_id
            &&& p.customer_id == o.customer_id
            &&& p.customer_contact == o.customer_contact
            &&& p.service_type == o.service_type
            &&& p.delivery_address == o.delivery_address
            &&& p.items == o.items
            &&& p.total_amount.amount_cents == 0 && p.total_amount.currency == o.total_amount.currency
            &&& is_zero_breakdown(p.breakdown, o.total_amount.currency@)
            &&& p.note == o.note
            &&& p.replacement_of == Some(original_order_id)
            &&& p.payment_intent_id is None
        }),
{
    match original {
        None => Err(reject1("OrderNotFound", "orderId", ContextValue::Id(original_order_id))),
        Some(o) => {
            let currency = o.total_amount.currency;
            Ok(OrderPlaced {
                order_id,
                test_mode: o.test_mode,
                external_ref: None,
                restaurant_id: o.restaurant_id,
                customer_id: o.customer_id,
                customer_contact: o.customer_contact,
                service_type: o.service_type,
                delivery_address: o.delivery_address,
                items: o.items,
                total_amount: Money::of(0, &currency),
                breakdown: zero_breakdown(&currency),
                note: o.note,
                replacement_of: Some(original_order_id),
                payment_intent_id: None,
            })
        }
    }
}

} // verus!
