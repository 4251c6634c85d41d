//! The cart-binding saga: when a visitor is identified as a customer, each of the session's open
//! carts is bound to that customer (a cart that refuses, or is already bound, is skipped and the
//! others still bind), and the session's binding is recorded.

use vstd::prelude::*;
use crate::cart::{bind_cart_to_customer, CartEvent, CartState};
use crate::errors::DomainError;
use crate::pm_state::CartBindingRow;
use crate::read_models::{CartReadRepository, CartRow};

verus! {

/// One open cart to bind.
#[derive(Debug, Clone, Copy, PartialEq, Eq)]
pub struct OpenCartsRead {
    pub cart_id: u128,
}

/// The binding leg's hooks over the cart read model.
pub struct CartBindingHooks<'a, C: CartReadRepository> {
    pub carts: &'a C,
}

impl<'a, C: CartReadRepository> CartBindingHooks<'a, C> {
    /// The session's open carts, by id, in the order the read model serves them.
    pub fn read_open_carts(&self, session_id: u128) -> (r: Result<Vec<OpenCartsRead>, DomainError>)
        ensures
            exists|a: Result<Vec<CartRow>, DomainError>| self.carts.open_carts_answer(session_id, a) && match a {
                Err(e) => r == Err::<Vec<OpenCartsRead>, DomainError>(e),
                Ok(rows) => r matches Ok(v) && v@.len() == rows@.len()
                    && forall|j: int| 0 <= j < rows@.len() ==> (#[trigger] v@[j]).cart_id == rows@[j].cart_id,
            },
    {
        let rows = self.carts.open_by_session(session_id);
        match rows {
            Err(e) => Err(e),
            Ok(rows) => Ok(open_carts_of(&rows)),
        }
    }
}

/// What the read hook hands on for the read model's answer: each open cart's id, in order.
pub fn open_carts_of(rows: &Vec<CartRow>) -> (r: Vec<OpenCartsRead>)
    ensures
        r@.len() == rows@.len(),
        forall|j: int| 0 <= j < rows@.len() ==> (#[trigger] r@[j]).cart_id == rows@[j].cart_id,
{
    let mut out: Vec<OpenCartsRead> = Vec::new();
    let mut i: usize = 0;
    while i < rows.len()
        invariant
            i <= rows@.len(),
            out@.len() == i,
            forall|j: int| 0 <= j < i ==> (#[trigger] out@[j]).cart_id == rows@[j].cart_id,
        decreases rows.len() - i,
    {
        out.push(OpenCartsRead { cart_id: rows[i].cart_id });
        i += 1;
    }
    out
}

/// The bind facts of the session's carts, in order: a cart that exists and is not yet bound takes
/// one; a missing cart (its bind is refused) or an already bound one contributes nothing.
pub open spec fn binds_of(customer_id: u128, carts: Seq<(u128, Option<CartState>)>) -> Seq<CartEvent>
    decreases carts.len(),
{
    if carts.len() == 0 {
        Seq::empty()
    } else {
        binds_of(customer_id, carts.drop_last()) + match carts.last().1 {
            Some(s) => if s.customer_id is None {
                seq![CartEvent::CartBoundToCustomer { cart_id: carts.last().0, customer_id }]
            } else {
                Seq::empty()
            },
            None => Seq::empty(),
        }
    }
}

/// The identification leg: the bind facts of the session's open carts (each with its folded state),
/// and the session's binding row to record (the store stamps its time).
pub fn on_customer_identified(session_id: u128, customer_id: u128, carts: &Vec<(u128, Option<CartState>)>)
    -> (r: (Vec<CartEvent>, CartBindingRow))
    ensures
        r.0@ == binds_of(customer_id, carts@),
        r.1.session_id == session_id,
        r.1.customer_id == customer_id,
{
    let mut binds: Vec<CartEvent> = Vec::new();
    let mut i: usize = 0;
    while i < carts.len()
        invariant
            i <= carts@.len(),
            binds@ == binds_of(customer_id, carts@.take(i as int)),
        decreases carts.len() - i,
    {
        assert(carts@.take(i + 1).drop_last() =~= carts@.take(i as int));
        let (cart_id, state) = &carts[i];
        match bind_cart_to_customer(*cart_id, customer_id, state) {
            Ok(Some(ev)) => binds.push(ev),
            Ok(None) => {}
            Err(_) => {}
        }
        i += 1;
        assert(binds@ =~= binds_of(customer_id, carts@.take(i as int)));
    }
    assert(carts@.take(carts@.len() as int) =~= carts@);
    (binds, CartBindingRow { session_id, customer_id, last_update_utc: 0 })
}

/// Re-delivering an identification binds nothing more: once every cart of the session is bound,
/// the leg yields no bind fact.
pub proof fn law_rebinding_yields_nothing(customer_id: u128, carts: Seq<(u128, Option<CartState>)>)
    requires
        forall|i: int| 0 <= i < carts.len() ==> ((#[trigger] carts[i]).1 matches Some(s) && s.customer_id is Some),
    ensures
        binds_of(customer_id, carts) == Seq::<CartEvent>::empty(),
    decreases carts.len(),
{
    if carts.len() > 0 {
        let prefix = carts.drop_last();
        assert forall|i: int| 0 <= i < prefix.len() implies ((#[trigger] prefix[i]).1 matches Some(s) && s.customer_id is Some) by {
            assert(prefix[i] == carts[i]);
        }
        law_rebinding_yields_nothing(customer_id, prefix);
        assert(carts[carts.len() - 1] == carts.last());
        assert(binds_of(customer_id, carts) =~= Seq::<CartEvent>::empty());
    }
}

} // verus!
