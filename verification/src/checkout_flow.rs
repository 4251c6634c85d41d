//! The checkout saga's command leg, composed around its one gateway call: everything decided
//! before the payment intent is requested (the guards, single-flight, the server-side pricing, the
//! confirmation of the displayed total, the store credit to apply), and everything decided once the
//! gateway answered (spending the credit, recording the payment's birth and opening the run). The
//! call itself is made between the two by whoever runs the leg.

use vstd::prelude::*;
use crate::cart::CartState;
use crate::checkout::{admit_checkout, admit_single_flight, buyer_total, checkout_recorded, checkout_refusal,
    confirm_expected_total, consume_customer_credit, consumed_for, credit_to_apply, credit_to_apply_spec,
    recorded_as, CheckoutRestaurant, CreditEvent, CreditLedger, PaymentIntentCreated, PaymentRequestOutput, PlaceOrder,
    ServiceType, ServiceWindow};
use crate::errors::{ContextValue, DomainError};
use crate::model::{CartLineItem, Money};
use crate::pm_state::{PaymentProcessRow, PaymentProcessStatus};
use crate::pricing::{catalog_reads, price_cart, price_cart_outcome, CatalogReadRepository, PricedCart};

verus! {

/// What the gateway is to be asked once the checkout passed every guard: the server-priced cart,
/// the store credit applied to it, and the amount the buyer pays.
#[derive(Debug, Clone, PartialEq, Eq)]
pub struct GatewayRequest {
    pub priced: PricedCart,
    pub applied: i64,
    pub amount: Money,
}

/// The refusal of the last guards before the gateway: a run of the cart still awaiting its payment
/// outcome (`Conflict`), then a delivery order without an address (`DeliveryAddressRequired`).
pub open spec fn single_flight_refusal(cmd: PlaceOrder, run: Option<PaymentProcessRow>) -> Option<Seq<char>> {
    if run matches Some(row) && row.process_status == PaymentProcessStatus::AwaitingPaymentResult {
        Some("Conflict"@)
    } else if cmd.service_type == ServiceType::Delivery && cmd.delivery_address is None {
        Some("DeliveryAddressRequired"@)
    } else {
        None
    }
}

/// The cart lines a checkout prices (none when there is no cart).
pub open spec fn checkout_lines(cart: Option<CartState>) -> Seq<CartLineItem> {
    match cart {
        Some(c) => c.lines@,
        None => Seq::empty(),
    }
}

/// `p` is what pricing the checkout's cart answered after reading `answers` from `catalogs`.
pub open spec fn priced_from<C: CatalogReadRepository>(catalogs: &C, cmd: PlaceOrder, cart: Option<CartState>,
    answers: Seq<Result<Option<crate::model::OfferView>, DomainError>>, p: Result<PricedCart, DomainError>) -> bool
{
    &&& catalog_reads(catalogs, cmd.restaurant_id, checkout_lines(cart), answers)
    &&& price_cart_outcome(cmd.cart_id, checkout_lines(cart), answers, p)
}

/// The expected total confirms the priced one: absent, or equal in amount and currency.
pub open spec fn confirms(expected: Option<Money>, priced: Money) -> bool {
    expected matches Some(e) ==> e.amount_cents == priced.amount_cents && e.currency@ == priced.currency@
}

/// The store credit applied to a priced total: what the ledger allows (`credit_to_apply_spec`), or
/// none for a total below zero.
pub open spec fn applied_credit(ledger: Option<CreditLedger>, order_id: u128, total: Money) -> int {
    if total.amount_cents >= 0 { credit_to_apply_spec(ledger, order_id, total) } else { 0 }
}

/// What the checkout decides before the gateway. The first guard that refuses answers its rejection
/// and nothing is priced; then the cart is priced from the live catalog, and a pricing failure is
/// the answer; then the displayed total must match (`PriceMismatch`); otherwise the gateway is to be
/// asked for the priced total less the applied store credit.
pub open spec fn prepare_outcome<C: CatalogReadRepository>(catalogs: &C, cmd: PlaceOrder,
    restaurant: Option<CheckoutRestaurant>, window: ServiceWindow, enforce_service_hours_guard: bool,
    cart: Option<CartState>, run: Option<PaymentProcessRow>, ledger: Option<CreditLedger>,
    r: Result<GatewayRequest, DomainError>) -> bool
{
    match checkout_refusal(cmd, restaurant, window, enforce_service_hours_guard, cart) {
        Some(code) => r is Err && r->Err_0.rejected_code() == Some(code),
        None => match single_flight_refusal(cmd, run) {
            Some(code) => r is Err && r->Err_0.rejected_code() == Some(code),
            None => exists|answers: Seq<Result<Option<crate::model::OfferView>, DomainError>>, p: Result<PricedCart, DomainError>|
                #[trigger] priced_from(catalogs, cmd, cart, answers, p) && match p {
                    Err(e) => r == Err::<GatewayRequest, DomainError>(e),
                    Ok(priced) => if confirms(cmd.expected_total, priced.total_amount) {
                        r matches Ok(req) && {
                            &&& req.priced == priced
                            &&& req.applied == applied_credit(ledger, cmd.order_id, priced.total_amount)
                            &&& req.amount.amount_cents == priced.total_amount.amount_cents - req.applied
                            &&& req.amount.currency == priced.total_amount.currency
                        }
                    } else {
                        r is Err && r->Err_0.rejected_code() == Some("PriceMismatch"@)
                            && r->Err_0.context_value("cartId"@) == Some(ContextValue::Id(cmd.cart_id))
                    },
                },
        },
    }
}

/// Everything the checkout decides before asking the gateway for a payment intent (see
/// `prepare_outcome`): the restaurant and cart guards, single-flight per cart, the server-side
/// pricing through `catalogs`, the confirmation of the displayed total, and the store credit the
/// read `ledger` lets the order apply. `evaluated_at` is the evaluation instant, as evidence.
pub fn prepare_checkout<C: CatalogReadRepository>(cmd: &PlaceOrder, restaurant: &Option<CheckoutRestaurant>,
    window: &ServiceWindow, evaluated_at: &String, enforce_service_hours_guard: bool, cart: &Option<CartState>,
    run: &Option<PaymentProcessRow>, catalogs: &C, ledger: &Option<CreditLedger>) -> (r: Result<GatewayRequest, DomainError>)
    ensures
        prepare_outcome(catalogs, *cmd, *restaurant, *window, enforce_service_hours_guard, *cart, *run, *ledger, r),
{
    admit_checkout(cmd, restaurant, window, evaluated_at, enforce_service_hours_guard, cart)?;
    proof {
        reveal_strlit("Conflict");
        reveal_strlit("DeliveryAddressRequired");
    }
    admit_single_flight(cmd, run)?;
    let lines = &cart.as_ref().unwrap().lines;
    let priced = price_cart(catalogs, cmd.cart_id, cmd.restaurant_id, lines);
    let ghost answers = choose|answers: Seq<Result<Option<crate::model::OfferView>, DomainError>>|
        #[trigger] catalog_reads(catalogs, cmd.restaurant_id, lines@, answers)
        && price_cart_outcome(cmd.cart_id, lines@, answers, priced);
    proof {
        assert(priced_from(catalogs, *cmd, *cart, answers, priced));
    }
    let priced = match priced {
        Err(e) => {
            return Err(e);
        }
        Ok(p) => p,
    };
    confirm_expected_total(cmd.cart_id, &cmd.expected_total, &priced.total_amount)?;
    let applied = if priced.total_amount.amount_cents >= 0 {
        credit_to_apply(ledger, cmd.order_id, &priced.total_amount)
    } else {
        0
    };
    let amount = if applied == 0 {
        priced.total_amount.duplicate()
    } else {
        buyer_total(&priced.total_amount, applied)
    };
    Ok(GatewayRequest { priced, applied, amount })
}

/// What a checkout records once the gateway answered: the credit event spent (if any), the
/// payment's birth fact and the run it opens.
#[derive(Debug, Clone, PartialEq, Eq)]
pub struct CheckoutCompletion {
    pub credit: Option<CreditEvent>,
    pub intent_created: PaymentIntentCreated,
    pub run: PaymentProcessRow,
}

/// What the checkout decides once the gateway answered. A gateway error (a decline) is the answer,
/// with no credit spent and nothing recorded. An accepted intent first spends the applied credit —
/// exactly once per order, never above the balance of the ledger read after the call
/// (`InsufficientCustomerCredit`, with nothing recorded) — then records the payment's birth and
/// opens the run.
pub open spec fn completion_outcome(cmd: PlaceOrder, req: GatewayRequest, gateway: Result<PaymentRequestOutput, DomainError>,
    ledger: Option<CreditLedger>, window: ServiceWindow, timezone: Option<String>, evaluated_at: String,
    session_id: Option<u128>, r: Result<CheckoutCompletion, DomainError>) -> bool
{
    match gateway {
        Err(e) => r == Err::<CheckoutCompletion, DomainError>(e),
        Ok(intent) => {
            let already = ledger matches Some(l) && consumed_for(l.consumed@, cmd.order_id) is Some;
            let balance = match ledger { Some(l) => l.balance_cents as int, None => 0 };
            if req.applied > 0 && !already && req.applied > balance {
                r is Err && r->Err_0.rejected_code() == Some("InsufficientCustomerCredit"@)
            } else {
                r matches Ok(c) && {
                    &&& (req.applied > 0 && !already) <==> c.credit is Some
                    &&& (c.credit matches Some(ev) ==> ev matches CreditEvent::CustomerCreditConsumed { customer_id, amount, order_id }
                            && customer_id == cmd.customer_id && order_id == cmd.order_id
                            && amount.amount_cents == req.applied && amount.currency == req.priced.total_amount.currency)
                    &&& recorded_as(cmd, req.priced, req.applied, window, timezone, evaluated_at, intent, session_id,
                            (c.intent_created, c.run))
                }
            }
        },
    }
}

/// Everything the checkout decides once the gateway answered (see `completion_outcome`); `ledger`
/// is the customer's credit ledger as read after the call.
pub fn complete_checkout(cmd: PlaceOrder, req: GatewayRequest, gateway: Result<PaymentRequestOutput, DomainError>,
    ledger: &Option<CreditLedger>, window: &ServiceWindow, timezone: Option<String>, evaluated_at: String,
    session_id: Option<u128>) -> (r: Result<CheckoutCompletion, DomainError>)
    requires
        0 <= req.applied,
        req.applied == 0 || req.applied <= req.priced.total_amount.amount_cents,
    ensures
        completion_outcome(cmd, req, gateway, *ledger, *window, timezone, evaluated_at, session_id, r),
{
    let intent = match gateway {
        Err(e) => {
            return Err(e);
        }
        Ok(i) => i,
    };
    let credit = if req.applied > 0 {
        let spent = Money::of(req.applied, &req.priced.total_amount.currency);
        consume_customer_credit(cmd.customer_id, spent, cmd.order_id, ledger)?
    } else {
        None
    };
    let (intent_created, run) = checkout_recorded(cmd, req.priced, req.applied, window, timezone, evaluated_at,
        intent, session_id);
    Ok(CheckoutCompletion { credit, intent_created, run })
}

/// No gateway call before the guards: whenever the checkout decides to ask the gateway, every
/// restaurant and cart guard passed, no run of the cart is in flight, a delivery has its address,
/// the cart priced from the live catalog and the displayed total (if any) matched.
pub proof fn law_no_gateway_call_before_the_guards<C: CatalogReadRepository>(catalogs: &C, cmd: PlaceOrder,
    restaurant: Option<CheckoutRestaurant>, window: ServiceWindow, enforce_service_hours_guard: bool,
    cart: Option<CartState>, run: Option<PaymentProcessRow>, ledger: Option<CreditLedger>,
    r: Result<GatewayRequest, DomainError>)
    requires
        prepare_outcome(catalogs, cmd, restaurant, window, enforce_service_hours_guard, cart, run, ledger, r),
        r is Ok,
    ensures
        checkout_refusal(cmd, restaurant, window, enforce_service_hours_guard, cart) is None,
        single_flight_refusal(cmd, run) is None,
        confirms(cmd.expected_total, r->Ok_0.priced.total_amount),
        exists|answers: Seq<Result<Option<crate::model::OfferView>, DomainError>>|
            #[trigger] priced_from(catalogs, cmd, cart, answers, Ok::<PricedCart, DomainError>(r->Ok_0.priced)),
{
    let (answers, p) = choose|answers: Seq<Result<Option<crate::model::OfferView>, DomainError>>, p: Result<PricedCart, DomainError>|
        #[trigger] priced_from(catalogs, cmd, cart, answers, p) && match p {
            Err(e) => r == Err::<GatewayRequest, DomainError>(e),
            Ok(priced) => if confirms(cmd.expected_total, priced.total_amount) {
                r matches Ok(req) && {
                    &&& req.priced == priced
                    &&& req.applied == applied_credit(ledger, cmd.order_id, priced.total_amount)
                    &&& req.amount.amount_cents == priced.total_amount.amount_cents - req.applied
                    &&& req.amount.currency == priced.total_amount.currency
                }
            } else {
                r is Err && r->Err_0.rejected_code() == Some("PriceMismatch"@)
                    && r->Err_0.context_value("cartId"@) == Some(ContextValue::Id(cmd.cart_id))
            },
        };
    assert(p == Ok::<PricedCart, DomainError>(r->Ok_0.priced));
}

/// A declined checkout never spends credit: when the gateway refuses the intent, the refusal is the
/// answer and no credit event, birth fact or run comes out.
pub proof fn law_declined_checkout_never_spends_credit(cmd: PlaceOrder, req: GatewayRequest, e: DomainError,
    ledger: Option<CreditLedger>, window: ServiceWindow, timezone: Option<String>, evaluated_at: String,
    session_id: Option<u128>, r: Result<CheckoutCompletion, DomainError>)
    requires
        completion_outcome(cmd, req, Err(e), ledger, window, timezone, evaluated_at, session_id, r),
    ensures
        r == Err::<CheckoutCompletion, DomainError>(e),
{
}

/// Store credit is spent only once the gateway accepted, and only the amount the request applied:
/// a completed checkout's credit event debits exactly the applied credit for this order.
pub proof fn law_credit_spent_is_the_credit_applied(cmd: PlaceOrder, req: GatewayRequest,
    gateway: Result<PaymentRequestOutput, DomainError>, ledger: Option<CreditLedger>, window: ServiceWindow,
    timezone: Option<String>, evaluated_at: String, session_id: Option<u128>, r: Result<CheckoutCompletion, DomainError>)
    requires
        completion_outcome(cmd, req, gateway, ledger, window, timezone, evaluated_at, session_id, r),
        r matches Ok(c) && c.credit is Some,
    ensures
        gateway is Ok,
        r->Ok_0.credit matches Some(CreditEvent::CustomerCreditConsumed { order_id, amount, .. })
            && order_id == cmd.order_id && amount.amount_cents == req.applied,
{
}

} // verus!
