//! The Cart aggregate's command decisions: which facts an add, remove, quantity change or customer
//! bind appends to a cart, and which catalogued rejection it answers instead. A line is orderable
//! only when its offer is in the live catalog, available, stocked for the quantity, and its selected
//! options fit the offer's option lists and their selection bounds.

use vstd::prelude::*;
use crate::errors::{field, reject, reject1, reject2, ContextValue, DomainError};
use crate::model::{CartLineItem, OfferOptionListView, OfferView};
use crate::outside::uuid_to_text;
use crate::text::{push_decimal, push_int_decimal};

verus! {

/// The life-cycle status of a cart.
#[derive(Debug, Clone, Copy, PartialEq, Eq, Structural)]
pub enum CartStatus {
    Open,
    CheckedOut,
}

impl CartStatus {
    /// The status as the catalogued rejections render it.
    pub fn as_str(self) -> (s: &'static str)
        ensures
            self is Open ==> s@ == "OPEN"@,
            self is CheckedOut ==> s@ == "CHECKED_OUT"@,
    {
        proof {
            reveal_strlit("OPEN");
            reveal_strlit("CHECKED_OUT");
        }
        match self {
            CartStatus::Open => "OPEN",
            CartStatus::CheckedOut => "CHECKED_OUT",
        }
    }
}

/// A cart as its stream folds: its restaurant, status, bound customer and lines.
#[derive(Debug, Clone, PartialEq, Eq)]
pub struct CartState {
    pub restaurant_id: u128,
    pub status: CartStatus,
    pub customer_id: Option<u128>,
    pub lines: Vec<CartLineItem>,
}

/// A fact on a cart's stream.
#[derive(Debug, Clone, PartialEq, Eq)]
pub enum CartEvent {
    CartStarted { cart_id: u128, restaurant_id: u128, session_id: Option<u128>, customer_id: Option<u128> },
    CartLineAdded { cart_id: u128, line: CartLineItem },
    CartLineRemoved { cart_id: u128, cart_line_id: u128 },
    CartLineQuantityChanged { cart_id: u128, cart_line_id: u128, quantity: i64 },
    CartBoundToCustomer { cart_id: u128, customer_id: u128 },
}

/// Whether the cart holds a line with id `line_id`.
pub open spec fn holds_line(lines: Seq<CartLineItem>, line_id: u128) -> bool {
    exists|i: int| 0 <= i < lines.len() && (#[trigger] lines[i]).cart_line_id == line_id
}

/// The first line of the cart with id `line_id`.
pub open spec fn line_with_id(lines: Seq<CartLineItem>, line_id: u128) -> int {
    choose|i: int| 0 <= i < lines.len() && (#[trigger] lines[i]).cart_line_id == line_id
        && forall|j: int| 0 <= j < i ==> (#[trigger] lines[j]).cart_line_id != line_id
}

/// The `CartNotOpen` rejection for `cart_id` in `status`.
pub fn cart_not_open(cart_id: u128, status: CartStatus) -> (e: DomainError)
    ensures
        e.rejected_code() == Some("CartNotOpen"@),
        e.context_value("cartId"@) == Some(ContextValue::Id(cart_id)),
{
    proof {
        reveal_strlit("cartId");
        reveal_strlit("status");
        assert("cartId"@[0] != "status"@[0]);
    }
    reject2("CartNotOpen", "cartId", ContextValue::Id(cart_id), "status",
        ContextValue::Text(String::from_str(status.as_str())))
}

/// The `CartNotFound` rejection for `cart_id`.
pub fn cart_not_found(cart_id: u128) -> (e: DomainError)
    ensures
        e.rejected_code() == Some("CartNotFound"@),
        e.context_value("cartId"@) == Some(ContextValue::Id(cart_id)),
{
    reject1("CartNotFound", "cartId", ContextValue::Id(cart_id))
}

/// Whether `v` holds `x`.
pub fn ids_contain(v: &Vec<u128>, x: u128) -> (b: bool)
    ensures
        b == v@.contains(x),
{
    let mut i: usize = 0;
    while i < v.len()
        invariant
            i <= v.len(),
            forall|j: int| 0 <= j < i ==> v@[j] != x,
        decreases v.len() - i,
    {
        if v[i] == x {
            assert(v@[i as int] == x);
            return true;
        }
        i += 1;
    }
    false
}

/// Whether the cart's lines hold `line_id`.
fn lines_hold(lines: &Vec<CartLineItem>, line_id: u128) -> (r: Option<usize>)
    ensures
        match r {
            Some(i) => i < lines@.len() && i as int == line_with_id(lines@, line_id) && holds_line(lines@, line_id),
            None => !holds_line(lines@, line_id),
        },
{
    let mut i: usize = 0;
    while i < lines.len()
        invariant
            i <= lines.len(),
            forall|j: int| 0 <= j < i ==> (#[trigger] lines@[j]).cart_line_id != line_id,
        decreases lines.len() - i,
    {
        if lines[i].cart_line_id == line_id {
            proof {
                let k = line_with_id(lines@, line_id);
                assert(lines@[i as int].cart_line_id == line_id);
                if k < i {
                    assert(lines@[k].cart_line_id != line_id);
                }
                if i < k {
                    assert(lines@[i as int].cart_line_id != line_id);
                }
            }
            return Some(i);
        }
        i += 1;
    }
    None
}

// ---------------------------------------------------------------------------------------------
// Option selection
// ---------------------------------------------------------------------------------------------

/// The selected options that fall in a list, in selection order (with repeats).
pub open spec fn picked(list_ids: Seq<u128>, selected: Seq<u128>) -> Seq<u128>
    decreases selected.len(),
{
    if selected.len() == 0 {
        Seq::empty()
    } else if list_ids.contains(selected.last()) {
        picked(list_ids, selected.drop_last()).push(selected.last())
    } else {
        picked(list_ids, selected.drop_last())
    }
}

/// Every selected option belongs to one of the offer's option lists.
pub open spec fn all_listed(lists: Seq<OfferOptionListView>, selected: Seq<u128>) -> bool {
    forall|k: int| 0 <= k < selected.len() ==> listed(lists, #[trigger] selected[k])
}

/// `id` belongs to one of the lists.
pub open spec fn listed(lists: Seq<OfferOptionListView>, id: u128) -> bool {
    exists|l: int| 0 <= l < lists.len() && (#[trigger] lists[l]).option_ids@.contains(id)
}

/// One list's selection bounds hold: at least `minSelections`, at most `maxSelections`, and no
/// option picked twice unless `multipleSelection`.
pub open spec fn list_respected(list: OfferOptionListView, selected: Seq<u128>) -> bool {
    let p = picked(list.option_ids@, selected);
    &&& p.len() >= list.min_selections
    &&& (list.max_selections matches Some(m) ==> p.len() <= m)
    &&& (!list.multiple_selection ==> p.no_duplicates())
}

/// The selection is valid for the offer.
pub open spec fn selection_valid(offer: OfferView, selected: Seq<u128>) -> bool {
    &&& all_listed(offer.option_lists@, selected)
    &&& forall|l: int| 0 <= l < offer.option_lists@.len() ==> list_respected(#[trigger] offer.option_lists@[l], selected)
}

/// The selected options that fall in `list_ids`.
fn picked_of(list_ids: &Vec<u128>, selected: &Vec<u128>) -> (p: Vec<u128>)
    ensures
        p@ == picked(list_ids@, selected@),
{
    let mut p: Vec<u128> = Vec::new();
    let mut i: usize = 0;
    while i < selected.len()
        invariant
            i <= selected.len(),
            p@ == picked(list_ids@, selected@.take(i as int)),
        decreases selected.len() - i,
    {
        proof {
            assert(selected@.take(i as int + 1).drop_last() =~= selected@.take(i as int));
            assert(selected@.take(i as int + 1).last() == selected@[i as int]);
        }
        if ids_contain(list_ids, selected[i]) {
            p.push(selected[i]);
        }
        i += 1;
    }
    assert(selected@.take(selected@.len() as int) =~= selected@);
    p
}

/// Whether some value occurs twice in `v`.
fn has_duplicate(v: &Vec<u128>) -> (b: bool)
    ensures
        b == !v@.no_duplicates(),
{
    let mut i: usize = 0;
    while i < v.len()
        invariant
            i <= v.len(),
            forall|a: int, b: int| 0 <= a < b < v@.len() && a < i ==> v@[a] != v@[b],
        decreases v.len() - i,
    {
        let mut j: usize = i + 1;
        while j < v.len()
            invariant
                i < v.len(),
                i + 1 <= j <= v.len(),
                forall|a: int, b: int| 0 <= a < b < v@.len() && a < i ==> v@[a] != v@[b],
                forall|b: int| i < b < j ==> v@[i as int] != v@[b],
            decreases v.len() - j,
        {
            if v[i] == v[j] {
                return true;
            }
            j += 1;
        }
        i += 1;
    }
    false
}

/// Whether one of the lists holds `id`.
fn is_listed(lists: &Vec<OfferOptionListView>, id: u128) -> (b: bool)
    ensures
        b == listed(lists@, id),
{
    let mut l: usize = 0;
    while l < lists.len()
        invariant
            l <= lists.len(),
            forall|m: int| 0 <= m < l ==> !(#[trigger] lists@[m]).option_ids@.contains(id),
        decreases lists.len() - l,
    {
        if ids_contain(&lists[l].option_ids, id) {
            return true;
        }
        l += 1;
    }
    false
}

/// The `InvalidOptionSelection` rejection, with a diagnostic `detail`.
fn invalid_selection(offer: &OfferView, detail: String) -> (e: DomainError)
    ensures
        e.rejected_code() == Some("InvalidOptionSelection"@),
        e.context_value("offerId"@) == Some(ContextValue::Id(offer.offer_id)),
        e.context_value("productName"@) == Some(ContextValue::Text(offer.product_name)),
{
    proof {
        reveal_strlit("offerId");
        reveal_strlit("productName");
        reveal_strlit("detail");
    }
    let mut context = Vec::new();
    context.push(field("offerId", ContextValue::Id(offer.offer_id)));
    context.push(field("productName", ContextValue::Text(offer.product_name.clone())));
    context.push(field("detail", ContextValue::Text(detail)));
    let e = reject("InvalidOptionSelection", context);
    proof {
        let c = e->context;
        assert(c@[0].key@ == "offerId"@);
        assert(c@[1].key@ == "productName"@);
        assert forall|i: int| 0 <= i < c@.len() && (#[trigger] c@[i]).key@ == "offerId"@ implies i == 0 by {
            if i != 0 {
                assert(c@[i].key@.len() != "offerId"@.len());
            }
        }
        assert forall|i: int| 0 <= i < c@.len() && (#[trigger] c@[i]).key@ == "productName"@ implies i == 1 by {
            if i != 1 {
                assert(c@[i].key@.len() != "productName"@.len());
            }
        }
    }
    e
}

/// The `InvalidOptionSelection` guard: every selected option belongs to one of the offer's option
/// lists, and each list's pick count respects its `minSelections` / `maxSelections`, with the same
/// option picked twice only under `multipleSelection`. The selected options are checked first, in
/// order; then the lists, in order.
pub fn require_valid_option_selection(offer: &OfferView, selected: &Vec<u128>) -> (r: Result<(), DomainError>)
    ensures
        r is Ok <==> selection_valid(*offer, selected@),
        r matches Err(e) ==> {
            &&& e.rejected_code() == Some("InvalidOptionSelection"@)
            &&& e.context_value("offerId"@) == Some(ContextValue::Id(offer.offer_id))
            &&& e.context_value("productName"@) == Some(ContextValue::Text(offer.product_name))
        },
{
    let mut k: usize = 0;
    while k < selected.len()
        invariant
            k <= selected.len(),
            forall|j: int| 0 <= j < k ==> listed(offer.option_lists@, #[trigger] selected@[j]),
        decreases selected.len() - k,
    {
        if !is_listed(&offer.option_lists, selected[k]) {
            let mut d = String::from_str("optionId=");
            d.append(uuid_to_text(selected[k]).as_str());
            d.append(" not in the offer's option lists");
            return Err(invalid_selection(offer, d));
        }
        k += 1;
    }
    let mut l: usize = 0;
    while l < offer.option_lists.len()
        invariant
            l <= offer.option_lists@.len(),
            all_listed(offer.option_lists@, selected@),
            forall|m: int| 0 <= m < l ==> list_respected(#[trigger] offer.option_lists@[m], selected@),
        decreases offer.option_lists.len() - l,
    {
        let list = &offer.option_lists[l];
        let p = picked_of(&list.option_ids, selected);
        let count: usize = p.len();
        if (count as i128) < (list.min_selections as i128) {
            let mut d = String::from_str("optionListId=");
            d.append(uuid_to_text(list.id).as_str());
            d.append(" picked=");
            push_decimal(&mut d, count as u64);
            d.append(" minSelections=");
            push_int_decimal(&mut d, list.min_selections);
            return Err(invalid_selection(offer, d));
        }
        match list.max_selections {
            Some(max) => {
                if (count as i128) > (max as i128) {
                    let mut d = String::from_str("optionListId=");
                    d.append(uuid_to_text(list.id).as_str());
                    d.append(" picked=");
                    push_decimal(&mut d, count as u64);
                    d.append(" maxSelections=");
                    push_int_decimal(&mut d, max);
                    return Err(invalid_selection(offer, d));
                }
            }
            None => {}
        }
        if !list.multiple_selection && has_duplicate(&p) {
            let mut d = String::from_str("optionListId=");
            d.append(uuid_to_text(list.id).as_str());
            d.append(" duplicate selection without multipleSelection");
            return Err(invalid_selection(offer, d));
        }
        l += 1;
    }
    Ok(())
}

// ---------------------------------------------------------------------------------------------
// Orderable lines
// ---------------------------------------------------------------------------------------------

/// A line is orderable against the live catalog: its offer is there (`OfferNotFound`), available
/// (`OfferUnavailable`), stocked for the quantity (`stock_check`, the outcome of the stock guard over
/// the offer's tracked quantity), and its selected options are valid (`InvalidOptionSelection`),
/// checked in that order.
pub fn require_orderable_line(offer: Option<&OfferView>, line: &CartLineItem, stock_check: Result<(), DomainError>)
    -> (r: Result<(), DomainError>)
    ensures
        match offer {
            None => r is Err && r->Err_0.rejected_code() == Some("OfferNotFound"@)
                && r->Err_0.context_value("offerId"@) == Some(ContextValue::Id(line.offer_id)),
            Some(o) => if !o.available {
                r is Err && r->Err_0.rejected_code() == Some("OfferUnavailable"@)
                    && r->Err_0.context_value("offerId"@) == Some(ContextValue::Id(o.offer_id))
            } else if stock_check is Err {
                r == stock_check
            } else {
                &&& (r is Ok <==> selection_valid(*o, line.selected_option_ids@))
                &&& (r is Err ==> r->Err_0.rejected_code() == Some("InvalidOptionSelection"@))
            },
        },
{
    match offer {
        None => Err(reject1("OfferNotFound", "offerId", ContextValue::Id(line.offer_id))),
        Some(o) => {
            if !o.available {
                proof {
                    reveal_strlit("offerId");
                    reveal_strlit("productName");
                    reveal_strlit("offerName");
                }
                let mut context = Vec::new();
                context.push(field("offerId", ContextValue::Id(o.offer_id)));
                context.push(field("productName", ContextValue::Text(o.product_name.clone())));
                context.push(field("offerName", ContextValue::Text(o.offer_name.clone())));
                let e = reject("OfferUnavailable", context);
                proof {
                    let c = e->context;
                    assert(c@[0].key@ == "offerId"@);
                    assert forall|i: int| 0 <= i < c@.len() && (#[trigger] c@[i]).key@ == "offerId"@ implies i == 0 by {
                        if i == 1 {
                            assert(c@[i].key@.len() != "offerId"@.len());
                        }
                        if i == 2 {
                            assert(c@[i].key@[5] != "offerId"@[5]);
                        }
                    }
                }
                return Err(e);
            }
            match stock_check {
                Err(e) => Err(e),
                Ok(()) => require_valid_option_selection(o, &line.selected_option_ids),
            }
        }
    }
}

// ---------------------------------------------------------------------------------------------
// Command decisions
// ---------------------------------------------------------------------------------------------

/// What an add of a line does to the cart, once the cart-state invariants hold.
#[derive(Debug, Clone, Copy, PartialEq, Eq, Structural)]
pub enum AddLinePlan {
    /// No cart yet: the add creates it (the line must be orderable).
    StartCart,
    /// The open cart gains the line, appended at `expected_version` (the line must be orderable).
    Append { expected_version: i64 },
    /// The cart already holds this line id: an idempotent replay, nothing is appended.
    Replay,
}

/// The `QuantityExceedsLimit` rejection for a line of `offer_id`.
fn quantity_exceeds_limit(offer_id: u128) -> (e: DomainError)
    ensures
        e.rejected_code() == Some("QuantityExceedsLimit"@),
        e.context_value("offerId"@) == Some(ContextValue::Id(offer_id)),
{
    reject1("QuantityExceedsLimit", "offerId", ContextValue::Id(offer_id))
}

/// What the cart-state guards of an add answer.
pub open spec fn add_plan_outcome(cart_id: u128, restaurant_id: u128, line: CartLineItem, max_line_quantity: i64,
    state: Option<CartState>, version: i64, r: Result<AddLinePlan, DomainError>) -> bool
{
    if line.quantity > max_line_quantity {
        r is Err && r->Err_0.rejected_code() == Some("QuantityExceedsLimit"@)
            && r->Err_0.context_value("offerId"@) == Some(ContextValue::Id(line.offer_id))
    } else {
        match state {
            None => r == Ok::<AddLinePlan, DomainError>(AddLinePlan::StartCart),
            Some(s) => if s.status != CartStatus::Open {
                r is Err && r->Err_0.rejected_code() == Some("CartNotOpen"@)
                    && r->Err_0.context_value("cartId"@) == Some(ContextValue::Id(cart_id))
            } else if s.restaurant_id != restaurant_id {
                r is Err && r->Err_0.rejected_code() == Some("CartRestaurantMismatch"@)
                    && r->Err_0.context_value("cartId"@) == Some(ContextValue::Id(cart_id))
                    && r->Err_0.context_value("restaurantId"@) == Some(ContextValue::Id(restaurant_id))
            } else if holds_line(s.lines@, line.cart_line_id) {
                r == Ok::<AddLinePlan, DomainError>(AddLinePlan::Replay)
            } else {
                r == Ok::<AddLinePlan, DomainError>(AddLinePlan::Append { expected_version: version })
            },
        }
    }
}

/// The cart-state guards of an add, in order: the per-line quantity cap, then (for an existing cart)
/// `CartNotOpen`, `CartRestaurantMismatch`, and the replay of a line id the cart already holds. The
/// line's orderability is checked after these, by the caller, for `StartCart` and `Append` only.
pub fn add_cart_line_plan(cart_id: u128, restaurant_id: u128, line: &CartLineItem, max_line_quantity: i64,
    state: &Option<CartState>, version: i64) -> (r: Result<AddLinePlan, DomainError>)
    ensures
        add_plan_outcome(cart_id, restaurant_id, *line, max_line_quantity, *state, version, r),
{
    if line.quantity > max_line_quantity {
        return Err(quantity_exceeds_limit(line.offer_id));
    }
    match state {
        None => Ok(AddLinePlan::StartCart),
        Some(s) => {
            if s.status != CartStatus::Open {
                return Err(cart_not_open(cart_id, s.status));
            }
            if s.restaurant_id != restaurant_id {
                proof {
                    reveal_strlit("cartId");
                    reveal_strlit("restaurantId");
                    assert("cartId"@.len() != "restaurantId"@.len());
                }
                return Err(reject2("CartRestaurantMismatch", "cartId", ContextValue::Id(cart_id),
                    "restaurantId", ContextValue::Id(restaurant_id)));
            }
            match lines_hold(&s.lines, line.cart_line_id) {
                Some(_) => Ok(AddLinePlan::Replay),
                None => Ok(AddLinePlan::Append { expected_version: version }),
            }
        }
    }
}

/// The facts an add appends under `plan`, with the stream version they go at.
pub open spec fn add_events_outcome(cart_id: u128, restaurant_id: u128, session_id: Option<u128>, line: CartLineItem,
    plan: AddLinePlan, r: (i64, Seq<CartEvent>)) -> bool
{
    match plan {
        AddLinePlan::StartCart => r.0 == 0 && r.1 == seq![
            CartEvent::CartStarted { cart_id, restaurant_id, session_id, customer_id: None },
            CartEvent::CartLineAdded { cart_id, line }],
        AddLinePlan::Append { expected_version } => r.0 == expected_version
            && r.1 == seq![CartEvent::CartLineAdded { cart_id, line }],
        AddLinePlan::Replay => r.1.len() == 0,
    }
}

/// The facts an add appends under `plan`, with the stream version they are appended at: the new
/// cart's `CartStarted` (no customer: a guest builds the cart) and `CartLineAdded` at version 0, the
/// `CartLineAdded` alone at the cart's version, or nothing for a replay.
pub fn add_cart_line_events(cart_id: u128, restaurant_id: u128, session_id: Option<u128>, line: CartLineItem,
    plan: AddLinePlan) -> (r: (i64, Vec<CartEvent>))
    ensures
        add_events_outcome(cart_id, restaurant_id, session_id, line, plan, (r.0, r.1@)),
{
    match plan {
        AddLinePlan::StartCart => {
            let mut v = Vec::new();
            v.push(CartEvent::CartStarted { cart_id, restaurant_id, session_id, customer_id: None });
            v.push(CartEvent::CartLineAdded { cart_id, line });
            assert(v@ =~= seq![
                CartEvent::CartStarted { cart_id, restaurant_id, session_id, customer_id: None },
                CartEvent::CartLineAdded { cart_id, line }]);
            (0, v)
        }
        AddLinePlan::Append { expected_version } => {
            let mut v = Vec::new();
            v.push(CartEvent::CartLineAdded { cart_id, line });
            assert(v@ =~= seq![CartEvent::CartLineAdded { cart_id, line }]);
            (expected_version, v)
        }
        AddLinePlan::Replay => (0, Vec::new()),
    }
}

/// The `CartLineNotFound` rejection.
fn cart_line_not_found(cart_id: u128, cart_line_id: u128) -> (e: DomainError)
    ensures
        e.rejected_code() == Some("CartLineNotFound"@),
        e.context_value("cartId"@) == Some(ContextValue::Id(cart_id)),
        e.context_value("cartLineId"@) == Some(ContextValue::Id(cart_line_id)),
{
    proof {
        reveal_strlit("cartId");
        reveal_strlit("cartLineId");
        assert("cartId"@.len() != "cartLineId"@.len());
    }
    reject2("CartLineNotFound", "cartId", ContextValue::Id(cart_id), "cartLineId", ContextValue::Id(cart_line_id))
}

/// Removing a line: only an open cart is editable and the line must be there.
pub fn remove_cart_line(cart_id: u128, cart_line_id: u128, state: &Option<CartState>) -> (r: Result<CartEvent, DomainError>)
    ensures
        match *state {
            None => r is Err && r->Err_0.rejected_code() == Some("CartNotFound"@)
                && r->Err_0.context_value("cartId"@) == Some(ContextValue::Id(cart_id)),
            Some(s) => if s.status != CartStatus::Open {
                r is Err && r->Err_0.rejected_code() == Some("CartNotOpen"@)
            } else if !holds_line(s.lines@, cart_line_id) {
                r is Err && r->Err_0.rejected_code() == Some("CartLineNotFound"@)
                    && r->Err_0.context_value("cartLineId"@) == Some(ContextValue::Id(cart_line_id))
            } else {
                r == Ok::<CartEvent, DomainError>(CartEvent::CartLineRemoved { cart_id, cart_line_id })
            },
        },
{
    let s = match state {
        None => {
            return Err(cart_not_found(cart_id));
        }
        Some(s) => s,
    };
    if s.status != CartStatus::Open {
        return Err(cart_not_open(cart_id, s.status));
    }
    match lines_hold(&s.lines, cart_line_id) {
        None => Err(cart_line_not_found(cart_id, cart_line_id)),
        Some(_) => Ok(CartEvent::CartLineRemoved { cart_id, cart_line_id }),
    }
}

/// The guards of a quantity change, in order: `CartNotFound`, `CartNotOpen`, `CartLineNotFound`,
/// then the per-line cap (`QuantityExceedsLimit`). On success, the offer of the line, whose tracked
/// stock (if it is still in the catalog) must then cover the new quantity.
pub fn change_cart_line_quantity_plan(cart_id: u128, cart_line_id: u128, quantity: i64, max_line_quantity: i64,
    state: &Option<CartState>) -> (r: Result<u128, DomainError>)
    ensures
        match *state {
            None => r is Err && r->Err_0.rejected_code() == Some("CartNotFound"@),
            Some(s) => if s.status != CartStatus::Open {
                r is Err && r->Err_0.rejected_code() == Some("CartNotOpen"@)
            } else if !holds_line(s.lines@, cart_line_id) {
                r is Err && r->Err_0.rejected_code() == Some("CartLineNotFound"@)
            } else if quantity > max_line_quantity {
                r is Err && r->Err_0.rejected_code() == Some("QuantityExceedsLimit"@)
                    && r->Err_0.context_value("offerId"@)
                        == Some(ContextValue::Id(s.lines@[line_with_id(s.lines@, cart_line_id)].offer_id))
            } else {
                r == Ok::<u128, DomainError>(s.lines@[line_with_id(s.lines@, cart_line_id)].offer_id)
            },
        },
{
    let s = match state {
        None => {
            return Err(cart_not_found(cart_id));
        }
        Some(s) => s,
    };
    if s.status != CartStatus::Open {
        return Err(cart_not_open(cart_id, s.status));
    }
    let i = match lines_hold(&s.lines, cart_line_id) {
        None => {
            return Err(cart_line_not_found(cart_id, cart_line_id));
        }
        Some(i) => i,
    };
    if quantity > max_line_quantity {
        return Err(quantity_exceeds_limit(s.lines[i].offer_id));
    }
    Ok(s.lines[i].offer_id)
}

/// The quantity change, once the stock guard (`stock_check`) has answered for the line's offer.
pub fn quantity_changed(cart_id: u128, cart_line_id: u128, quantity: i64, stock_check: Result<(), DomainError>)
    -> (r: Result<CartEvent, DomainError>)
    ensures
        stock_check is Err ==> r is Err && r->Err_0 == stock_check->Err_0,
        stock_check is Ok ==> r == Ok::<CartEvent, DomainError>(CartEvent::CartLineQuantityChanged { cart_id, cart_line_id, quantity }),
{
    match stock_check {
        Err(e) => Err(e),
        Ok(()) => Ok(CartEvent::CartLineQuantityChanged { cart_id, cart_line_id, quantity }),
    }
}

/// What a bind answers.
pub open spec fn bind_outcome(cart_id: u128, customer_id: u128, state: Option<CartState>,
    r: Result<Option<CartEvent>, DomainError>) -> bool
{
    match state {
        None => r is Err && r->Err_0.rejected_code() == Some("CartNotFound"@)
            && r->Err_0.context_value("cartId"@) == Some(ContextValue::Id(cart_id)),
        Some(s) => if s.customer_id is Some {
            r == Ok::<Option<CartEvent>, DomainError>(None)
        } else {
            r == Ok::<Option<CartEvent>, DomainError>(Some(CartEvent::CartBoundToCustomer { cart_id, customer_id }))
        },
    }
}

/// Binding a cart to a customer is one-time, first wins: an already-bound cart (to this customer or
/// another) appends nothing; only a missing cart is refused.
pub fn bind_cart_to_customer(cart_id: u128, customer_id: u128, state: &Option<CartState>)
    -> (r: Result<Option<CartEvent>, DomainError>)
    ensures
        bind_outcome(cart_id, customer_id, *state, r),
{
    match state {
        None => Err(cart_not_found(cart_id)),
        Some(s) => {
            if s.customer_id.is_some() {
                Ok(None)
            } else {
                Ok(Some(CartEvent::CartBoundToCustomer { cart_id, customer_id }))
            }
        }
    }
}

/// Adding a line twice is idempotent: once an open cart of the restaurant holds the line id, the same
/// add plans a replay, and a replay appends nothing.
pub proof fn law_add_line_replay_appends_nothing(cart_id: u128, restaurant_id: u128, session_id: Option<u128>,
    line: CartLineItem, max_line_quantity: i64, s: CartState, version: i64, plan: Result<AddLinePlan, DomainError>,
    appended: (i64, Seq<CartEvent>))
    requires
        line.quantity <= max_line_quantity,
        s.status == CartStatus::Open,
        s.restaurant_id == restaurant_id,
        holds_line(s.lines@, line.cart_line_id),
        add_plan_outcome(cart_id, restaurant_id, line, max_line_quantity, Some(s), version, plan),
        plan is Ok ==> add_events_outcome(cart_id, restaurant_id, session_id, line, plan->Ok_0, appended),
    ensures
        plan == Ok::<AddLinePlan, DomainError>(AddLinePlan::Replay),
        appended.1.len() == 0,
{
}

/// Binding is first-wins: a cart already bound to a customer never gains a second bind fact,
/// whoever asks.
pub proof fn law_bind_is_first_wins(cart_id: u128, customer_id: u128, s: CartState, r: Result<Option<CartEvent>, DomainError>)
    requires
        s.customer_id is Some,
        bind_outcome(cart_id, customer_id, Some(s), r),
    ensures
        r == Ok::<Option<CartEvent>, DomainError>(None),
{
}

} // verus!
