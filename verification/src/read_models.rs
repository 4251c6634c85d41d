//! What the process managers read of the read models: an order's tracking row (its payment state,
//! captured total and intent) and a visitor's open carts.

use vstd::prelude::*;
use crate::errors::DomainError;

verus! {

/// An order as the order-tracking read model serves it to the sagas.
#[derive(Debug, Clone, PartialEq, Eq)]
pub struct OrderTrackingRow {
    pub order_id: u128,
    pub restaurant_id: u128,
    /// The payment state, as the read model spells it (`"AUTHORIZED"`, `"CAPTURED"`, ...).
    pub payment_status: String,
    pub total_amount_cents: i64,
    pub currency: String,
    pub payment_intent_id: Option<String>,
}

/// The order-tracking read port.
pub trait OrderReadRepository {
    /// Whether `r` is an answer the read model may give for the order (what it holds at the time of
    /// the read, or a failure to read it). Nothing is promised by default; an implementation that
    /// promises more says so here.
    open spec fn order_answer(&self, order_id: u128, r: Result<Option<OrderTrackingRow>, DomainError>) -> bool {
        true
    }

    /// The order's row, if the read model has it.
    fn by_id(&self, order_id: u128) -> (r: Result<Option<OrderTrackingRow>, DomainError>)
        ensures
            self.order_answer(order_id, r);
}

/// A cart as the cart read model serves it.
#[derive(Debug, Clone, PartialEq, Eq)]
pub struct CartRow {
    pub cart_id: u128,
    pub restaurant_id: u128,
    pub session_id: u128,
    pub customer_id: Option<u128>,
}

/// The cart read port.
pub trait CartReadRepository {
    /// Whether `r` is an answer the read model may give for the session's open carts. Nothing is
    /// promised by default; an implementation that promises more says so here.
    open spec fn open_carts_answer(&self, session_id: u128, r: Result<Vec<CartRow>, DomainError>) -> bool {
        true
    }

    /// The open carts of a visitor's session.
    fn open_by_session(&self, session_id: u128) -> (r: Result<Vec<CartRow>, DomainError>)
        ensures
            self.open_carts_answer(session_id, r);
}

} // verus!
