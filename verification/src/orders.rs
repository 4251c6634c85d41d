//! The order's command decisions after its birth: an order is found only under its own restaurant;
//! a delivered order is rated, rated for its restaurant and given a delivery-satisfaction verdict at
//! most once each, and may have a refund requested; tips accumulate on any order not terminated, the
//! tipper being derived from the caller's role. Inbound order facts (its birth, its expiry) are
//! recorded once.

use vstd::prelude::*;
use crate::commands::RecordOutcome;
use crate::errors::{has_text, reject1, reject2, text_value, ContextValue, DomainError};
use crate::model::Money;
use crate::text::same_text;

verus! {

/// What the order's decisions read of it, folded from its stream. `status` is the status's wire
/// name; `terminated` is the order aggregate's own verdict (rejected or cancelled).
#[derive(Debug, Clone, PartialEq, Eq)]
pub struct OrderState {
    pub restaurant_id: u128,
    pub customer_id: u128,
    pub status: String,
    pub terminated: bool,
    pub delivery_rated: bool,
    pub restaurant_rated: bool,
    pub delivery_satisfaction_recorded: bool,
}

/// The order exists under the commanding restaurant (tenant scoping), or the command is refused
/// with `OrderNotFound`.
pub fn require_order(order_id: u128, restaurant_id: u128, order: Option<OrderState>) -> (r: Result<OrderState, DomainError>)
    ensures
        (order matches Some(o) && o.restaurant_id == restaurant_id) ==> r == Ok::<OrderState, DomainError>(order->0),
        !(order matches Some(o) && o.restaurant_id == restaurant_id) ==> r is Err
            && r->Err_0.rejected_code() == Some("OrderNotFound"@)
            && r->Err_0.context_value("orderId"@) == Some(ContextValue::Id(order_id)),
{
    match order {
        Some(o) => {
            if o.restaurant_id == restaurant_id {
                Ok(o)
            } else {
                Err(reject1("OrderNotFound", "orderId", ContextValue::Id(order_id)))
            }
        }
        None => Err(reject1("OrderNotFound", "orderId", ContextValue::Id(order_id))),
    }
}

/// The `InvalidOrderStatus` rejection of `order_id` currently in `status`.
pub open spec fn is_invalid_order_status(e: DomainError, order_id: u128, status: Seq<char>) -> bool {
    &&& e.rejected_code() == Some("InvalidOrderStatus"@)
    &&& e.context_value("orderId"@) == Some(ContextValue::Id(order_id))
    &&& has_text(e, "currentStatus"@, status)
}

/// The `InvalidOrderStatus` rejection (see `is_invalid_order_status`).
pub fn invalid_order_status(order_id: u128, status: &String) -> (e: DomainError)
    ensures
        is_invalid_order_status(e, order_id, status@),
{
    proof {
        reveal_strlit("orderId");
        reveal_strlit("currentStatus");
        assert("orderId"@.len() != "currentStatus"@.len());
    }
    reject2("InvalidOrderStatus", "orderId", ContextValue::Id(order_id), "currentStatus", ContextValue::Text(status.clone()))
}

/// The once-only post-delivery verdicts an order takes.
#[derive(Debug, Clone, Copy, PartialEq, Eq, Structural)]
pub enum DeliveredVerdict {
    /// The customer's thumb on the delivery (`OrderAlreadyRated`).
    OrderRating,
    /// The customer's stars for the restaurant (`RestaurantAlreadyRated`).
    RestaurantRating,
    /// The delivery-satisfaction verdict (`DeliverySatisfactionAlreadyRecorded`).
    DeliverySatisfaction,
}

impl DeliveredVerdict {
    /// Whether the order already carries this verdict.
    pub open spec fn given(self, order: OrderState) -> bool {
        match self {
            DeliveredVerdict::OrderRating => order.delivery_rated,
            DeliveredVerdict::RestaurantRating => order.restaurant_rated,
            DeliveredVerdict::DeliverySatisfaction => order.delivery_satisfaction_recorded,
        }
    }

    /// The code refusing it a second time.
    pub open spec fn repeat_code(self) -> Seq<char> {
        match self {
            DeliveredVerdict::OrderRating => "OrderAlreadyRated"@,
            DeliveredVerdict::RestaurantRating => "RestaurantAlreadyRated"@,
            DeliveredVerdict::DeliverySatisfaction => "DeliverySatisfactionAlreadyRecorded"@,
        }
    }
}

/// A verdict on a delivered order, given at most once: an order not delivered is
/// `InvalidOrderStatus`; one already carrying the verdict is its repeat code. On success the answer
/// is the customer the fact is stamped with.
pub fn delivered_verdict(order_id: u128, order: &OrderState, verdict: DeliveredVerdict) -> (r: Result<u128, DomainError>)
    ensures
        order.status@ != "DELIVERED"@ ==> r is Err && is_invalid_order_status(r->Err_0, order_id, order.status@),
        order.status@ == "DELIVERED"@ && verdict.given(*order) ==> r is Err
            && r->Err_0.rejected_code() == Some(verdict.repeat_code())
            && r->Err_0.context_value("orderId"@) == Some(ContextValue::Id(order_id)),
        order.status@ == "DELIVERED"@ && !verdict.given(*order) ==> r == Ok::<u128, DomainError>(order.customer_id),
{
    if !same_text(&order.status, "DELIVERED") {
        return Err(invalid_order_status(order_id, &order.status));
    }
    match verdict {
        DeliveredVerdict::OrderRating => {
            if order.delivery_rated {
                return Err(reject1("OrderAlreadyRated", "orderId", ContextValue::Id(order_id)));
            }
        }
        DeliveredVerdict::RestaurantRating => {
            if order.restaurant_rated {
                return Err(reject1("RestaurantAlreadyRated", "orderId", ContextValue::Id(order_id)));
            }
        }
        DeliveredVerdict::DeliverySatisfaction => {
            if order.delivery_satisfaction_recorded {
                return Err(reject1("DeliverySatisfactionAlreadyRecorded", "orderId", ContextValue::Id(order_id)));
            }
        }
    }
    Ok(order.customer_id)
}

/// The customer's thumb on a delivered order's delivery, given once (`OrderAlreadyRated`).
pub fn rate_order(order_id: u128, order: &OrderState) -> (r: Result<u128, DomainError>)
    ensures
        order.status@ != "DELIVERED"@ ==> r is Err && is_invalid_order_status(r->Err_0, order_id, order.status@),
        order.status@ == "DELIVERED"@ && order.delivery_rated ==> r is Err
            && r->Err_0.rejected_code() == Some("OrderAlreadyRated"@),
        order.status@ == "DELIVERED"@ && !order.delivery_rated ==> r == Ok::<u128, DomainError>(order.customer_id),
{
    delivered_verdict(order_id, order, DeliveredVerdict::OrderRating)
}

/// The customer's stars for the restaurant of a delivered order, given once per order
/// (`RestaurantAlreadyRated`).
pub fn rate_restaurant(order_id: u128, order: &OrderState) -> (r: Result<u128, DomainError>)
    ensures
        order.status@ != "DELIVERED"@ ==> r is Err && is_invalid_order_status(r->Err_0, order_id, order.status@),
        order.status@ == "DELIVERED"@ && order.restaurant_rated ==> r is Err
            && r->Err_0.rejected_code() == Some("RestaurantAlreadyRated"@),
        order.status@ == "DELIVERED"@ && !order.restaurant_rated ==> r == Ok::<u128, DomainError>(order.customer_id),
{
    delivered_verdict(order_id, order, DeliveredVerdict::RestaurantRating)
}

/// The delivery-satisfaction verdict of a delivered order, recorded once
/// (`DeliverySatisfactionAlreadyRecorded`).
pub fn record_delivery_satisfaction(order_id: u128, order: &OrderState) -> (r: Result<u128, DomainError>)
    ensures
        order.status@ != "DELIVERED"@ ==> r is Err && is_invalid_order_status(r->Err_0, order_id, order.status@),
        order.status@ == "DELIVERED"@ && order.delivery_satisfaction_recorded ==> r is Err
            && r->Err_0.rejected_code() == Some("DeliverySatisfactionAlreadyRecorded"@),
        order.status@ == "DELIVERED"@ && !order.delivery_satisfaction_recorded
            ==> r == Ok::<u128, DomainError>(order.customer_id),
{
    delivered_verdict(order_id, order, DeliveredVerdict::DeliverySatisfaction)
}

/// A refund is requested only on a delivered order; the answer is the customer the request is
/// stamped with.
pub fn request_refund(order_id: u128, order: &OrderState) -> (r: Result<u128, DomainError>)
    ensures
        order.status@ != "DELIVERED"@ ==> r is Err && is_invalid_order_status(r->Err_0, order_id, order.status@),
        order.status@ == "DELIVERED"@ ==> r == Ok::<u128, DomainError>(order.customer_id),
{
    if !same_text(&order.status, "DELIVERED") {
        return Err(invalid_order_status(order_id, &order.status));
    }
    Ok(order.customer_id)
}

/// Who tips.
#[derive(Debug, Clone, Copy, PartialEq, Eq, Structural)]
pub enum Tipper {
    Customer,
    Restaurant,
}

/// One tip: its recipient (wire name) and amount.
#[derive(Debug, Clone, PartialEq, Eq)]
pub struct Tip {
    pub recipient: String,
    pub amount: Money,
}

/// The tips recorded on an order.
#[derive(Debug, Clone, PartialEq, Eq)]
pub struct OrderTipped {
    pub order_id: u128,
    pub restaurant_id: u128,
    pub tipped_by: Tipper,
    /// The tipping customer; absent when the restaurant tips.
    pub customer_id: Option<u128>,
    pub tips: Vec<Tip>,
}

/// The tipper a caller's role makes: a restaurant account or a restaurant tips as the restaurant,
/// everyone else as the customer.
pub open spec fn tipper_of(user_type: Seq<char>) -> Tipper {
    if user_type == "RESTAURANT_ACCOUNT"@ || user_type == "RESTAURANT"@ { Tipper::Restaurant } else { Tipper::Customer }
}

/// Whether a tip goes to the restaurant.
pub open spec fn tips_restaurant(tips: Seq<Tip>) -> bool {
    exists|i: int| 0 <= i < tips.len() && (#[trigger] tips[i]).recipient@ == "RESTAURANT"@
}

fn any_restaurant_tip(tips: &Vec<Tip>) -> (b: bool)
    ensures
        b == tips_restaurant(tips@),
{
    let mut i: usize = 0;
    while i < tips.len()
        invariant
            i <= tips@.len(),
            forall|j: int| 0 <= j < i ==> (#[trigger] tips@[j]).recipient@ != "RESTAURANT"@,
        decreases tips.len() - i,
    {
        if same_text(&tips[i].recipient, "RESTAURANT") {
            return true;
        }
        i += 1;
    }
    false
}

/// Tips are recorded on any order not terminated (else `InvalidOrderStatus`); at least one tip is
/// given (else `ValidationError` on `tips`); the tipper is derived from the caller's role, never
/// taken from the client, and a restaurant cannot tip itself (`InvalidTipRecipient`). The customer
/// tipping is stamped; a restaurant's tip carries no customer.
pub fn tip_order(order_id: u128, restaurant_id: u128, tips: Vec<Tip>, user_type: &String, order: &OrderState)
    -> (r: Result<OrderTipped, DomainError>)
    ensures
        order.terminated ==> r is Err && is_invalid_order_status(r->Err_0, order_id, order.status@),
        !order.terminated && tips@.len() == 0 ==> r is Err
            && r->Err_0.rejected_code() == Some("ValidationError"@) && has_text(r->Err_0, "field"@, "tips"@),
        !order.terminated && tips@.len() > 0 && tipper_of(user_type@) == Tipper::Restaurant && tips_restaurant(tips@)
            ==> r is Err && r->Err_0.rejected_code() == Some("InvalidTipRecipient"@)
            && has_text(r->Err_0, "tippedBy"@, "RESTAURANT"@) && has_text(r->Err_0, "recipient"@, "RESTAURANT"@),
        !order.terminated && tips@.len() > 0 && !(tipper_of(user_type@) == Tipper::Restaurant && tips_restaurant(tips@))
            ==> r == Ok::<OrderTipped, DomainError>(OrderTipped {
                order_id,
                restaurant_id,
                tipped_by: tipper_of(user_type@),
                customer_id: if tipper_of(user_type@) == Tipper::Customer { Some(order.customer_id) } else { None },
                tips,
            }),
{
    if order.terminated {
        return Err(invalid_order_status(order_id, &order.status));
    }
    if tips.len() == 0 {
        return Err(reject1("ValidationError", "field", text_value("tips")));
    }
    let restaurant_caller = same_text(user_type, "RESTAURANT_ACCOUNT") || same_text(user_type, "RESTAURANT");
    let tipped_by = if restaurant_caller { Tipper::Restaurant } else { Tipper::Customer };
    if restaurant_caller && any_restaurant_tip(&tips) {
        proof {
            reveal_strlit("tippedBy");
            reveal_strlit("recipient");
            assert("tippedBy"@.len() != "recipient"@.len());
        }
        return Err(reject2("InvalidTipRecipient", "tippedBy", text_value("RESTAURANT"), "recipient",
            text_value("RESTAURANT")));
    }
    let customer_id = if restaurant_caller { None } else { Some(order.customer_id) };
    Ok(OrderTipped { order_id, restaurant_id, tipped_by, customer_id, tips })
}

/// Recording a delivered order expiry: an empty stream (already erased, or never born) changes
/// nothing; an expiry already on the stream is already recorded; otherwise it is appended (`None`,
/// then `Recorded`). The deadline's passage is never refused.
pub fn record_inbound_order_event(stream_empty: bool, already_expired: bool) -> (r: Option<RecordOutcome>)
    ensures
        stream_empty ==> r == Some(RecordOutcome::NoChange),
        !stream_empty && already_expired ==> r == Some(RecordOutcome::AlreadyRecorded),
        !stream_empty && !already_expired ==> r is None,
{
    if stream_empty {
        Some(RecordOutcome::NoChange)
    } else if already_expired {
        Some(RecordOutcome::AlreadyRecorded)
    } else {
        None
    }
}

/// Recording a delivered order birth: a birth already on the stream is already recorded; a stream
/// with facts but no birth (erased or partial) absorbs it without a second birth; an empty stream
/// takes it (`None`, then `Recorded`).
pub fn record_inbound_order_placed(stream_empty: bool, already_placed: bool) -> (r: Option<RecordOutcome>)
    ensures
        already_placed ==> r == Some(RecordOutcome::AlreadyRecorded),
        !already_placed && !stream_empty ==> r == Some(RecordOutcome::NoChange),
        !already_placed && stream_empty ==> r is None,
{
    if already_placed {
        Some(RecordOutcome::AlreadyRecorded)
    } else if !stream_empty {
        Some(RecordOutcome::NoChange)
    } else {
        None
    }
}

} // verus!
