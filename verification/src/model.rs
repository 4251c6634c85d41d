//! The plain values the application layer reads and writes: money, cart and order lines, the
//! catalog's offer view, and the checkout's fee/split breakdown.

use vstd::prelude::*;

verus! {

/// An amount in minor units of a currency (ISO 4217 code).
#[derive(Debug, Clone, PartialEq, Eq)]
pub struct Money {
    pub amount_cents: i64,
    pub currency: String,
}

impl Money {
    /// A field-for-field copy.
    pub fn duplicate(&self) -> (m: Money)
        ensures
            m == *self,
    {
        Money { amount_cents: self.amount_cents, currency: self.currency.clone() }
    }

    /// `amount_cents` of `currency`.
    pub fn of(amount_cents: i64, currency: &String) -> (m: Money)
        ensures
            m.amount_cents == amount_cents,
            m.currency == *currency,
    {
        Money { amount_cents, currency: currency.clone() }
    }

    /// Whether two amounts are the same amount of the same currency.
    pub fn same_as(&self, other: &Money) -> (b: bool)
        ensures
            b == (self.amount_cents == other.amount_cents && self.currency@ == other.currency@),
    {
        self.amount_cents == other.amount_cents && self.currency == other.currency
    }
}

/// One line of a cart: an offer, a quantity and the selected options (client-generated line id).
#[derive(Debug, Clone, PartialEq, Eq)]
pub struct CartLineItem {
    pub cart_line_id: u128,
    pub offer_id: u128,
    pub quantity: i64,
    pub selected_option_ids: Vec<u128>,
}

/// One option of an option list, as the live catalog serves it.
#[derive(Debug, Clone, PartialEq, Eq)]
pub struct OfferOptionView {
    pub id: u128,
    pub name: String,
    pub price: Money,
}

/// One option list attached to an offer, with its selection bounds.
#[derive(Debug, Clone, PartialEq, Eq)]
pub struct OfferOptionListView {
    pub id: u128,
    pub min_selections: i64,
    pub max_selections: Option<i64>,
    pub multiple_selection: bool,
    pub option_ids: Vec<u128>,
    pub options: Vec<OfferOptionView>,
}

/// An offer as the live catalog read model serves it (availability is the manual flag; stock is
/// checked separately).
#[derive(Debug, Clone, PartialEq, Eq)]
pub struct OfferView {
    pub offer_id: u128,
    pub product_id: u128,
    pub product_name: String,
    pub offer_name: String,
    pub price: Money,
    pub available: bool,
    pub option_lists: Vec<OfferOptionListView>,
}

/// A copy of a list of ids.
pub fn copy_ids(v: &Vec<u128>) -> (r: Vec<u128>)
    ensures
        r@ == v@,
{
    let mut r: Vec<u128> = Vec::new();
    let mut i: usize = 0;
    while i < v.len()
        invariant
            i <= v.len(),
            r@ == v@.subrange(0, i as int),
        decreases v.len() - i,
    {
        r.push(v[i]);
        i += 1;
        assert(r@ =~= v@.subrange(0, i as int));
    }
    assert(v@.subrange(0, v@.len() as int) =~= v@);
    r
}

impl OfferOptionView {
    /// A field-for-field copy.
    pub fn duplicate(&self) -> (r: Self)
        ensures
            r == *self,
    {
        OfferOptionView { id: self.id, name: self.name.clone(), price: self.price.duplicate() }
    }
}

/// Two option lists hold the same values.
pub open spec fn same_list(a: OfferOptionListView, b: OfferOptionListView) -> bool {
    &&& a.id == b.id
    &&& a.min_selections == b.min_selections
    &&& a.max_selections == b.max_selections
    &&& a.multiple_selection == b.multiple_selection
    &&& a.option_ids@ == b.option_ids@
    &&& a.options@ == b.options@
}

/// Two offers hold the same values.
pub open spec fn same_offer(a: OfferView, b: OfferView) -> bool {
    &&& a.offer_id == b.offer_id
    &&& a.product_id == b.product_id
    &&& a.product_name == b.product_name
    &&& a.offer_name == b.offer_name
    &&& a.price == b.price
    &&& a.available == b.available
    &&& a.option_lists@.len() == b.option_lists@.len()
    &&& forall|i: int| 0 <= i < a.option_lists@.len() ==> same_list(#[trigger] a.option_lists@[i], b.option_lists@[i])
}

impl OfferOptionListView {
    /// A field-for-field copy.
    pub fn duplicate(&self) -> (r: Self)
        ensures
            same_list(r, *self),
    {
        let mut options: Vec<OfferOptionView> = Vec::new();
        let mut i: usize = 0;
        while i < self.options.len()
            invariant
                i <= self.options.len(),
                options@ == self.options@.subrange(0, i as int),
            decreases self.options.len() - i,
        {
            options.push(self.options[i].duplicate());
            i += 1;
            assert(options@ =~= self.options@.subrange(0, i as int));
        }
        assert(self.options@.subrange(0, self.options@.len() as int) =~= self.options@);
        OfferOptionListView {
            id: self.id,
            min_selections: self.min_selections,
            max_selections: self.max_selections,
            multiple_selection: self.multiple_selection,
            option_ids: copy_ids(&self.option_ids),
            options,
        }
    }
}

impl OfferView {
    /// A field-for-field copy.
    pub fn duplicate(&self) -> (r: Self)
        ensures
            same_offer(r, *self),
    {
        let mut lists: Vec<OfferOptionListView> = Vec::new();
        let mut i: usize = 0;
        while i < self.option_lists.len()
            invariant
                i <= self.option_lists.len(),
                lists@.len() == i,
                forall|j: int| 0 <= j < i ==> same_list(#[trigger] lists@[j], self.option_lists@[j]),
            decreases self.option_lists.len() - i,
        {
            lists.push(self.option_lists[i].duplicate());
            i += 1;
        }
        OfferView {
            offer_id: self.offer_id,
            product_id: self.product_id,
            product_name: self.product_name.clone(),
            offer_name: self.offer_name.clone(),
            price: self.price.duplicate(),
            available: self.available,
            option_lists: lists,
        }
    }
}

/// A selected option, priced from the live catalog.
#[derive(Debug, Clone, PartialEq, Eq)]
pub struct SelectedOption {
    pub option_id: u128,
    pub option_list_id: Option<u128>,
    pub name: String,
    pub price: Money,
}

/// A server-priced order line.
#[derive(Debug, Clone, PartialEq, Eq)]
pub struct OrderLineItem {
    pub offer_id: u128,
    pub product_id: Option<u128>,
    pub name: String,
    pub offer_name: Option<String>,
    pub quantity: i64,
    pub unit_price: Money,
    pub selected_options: Vec<SelectedOption>,
    pub line_total: Money,
}

/// The fee/split breakdown of a checkout.
#[derive(Debug, Clone, PartialEq, Eq)]
pub struct PaymentBreakdown {
    pub articles: Money,
    pub delivery: Money,
    pub service_fee: Money,
    pub total: Money,
    pub restaurant_contribution: Money,
    pub restaurant_payout: Money,
    pub rider_payout: Money,
    pub captain_net: Money,
}

/// A breakdown in which every leg is zero in `currency`.
pub open spec fn is_zero_breakdown(b: PaymentBreakdown, currency: Seq<char>) -> bool {
    &&& b.articles.amount_cents == 0 && b.articles.currency@ == currency
    &&& b.delivery.amount_cents == 0 && b.delivery.currency@ == currency
    &&& b.service_fee.amount_cents == 0 && b.service_fee.currency@ == currency
    &&& b.total.amount_cents == 0 && b.total.currency@ == currency
    &&& b.restaurant_contribution.amount_cents == 0 && b.restaurant_contribution.currency@ == currency
    &&& b.restaurant_payout.amount_cents == 0 && b.restaurant_payout.currency@ == currency
    &&& b.rider_payout.amount_cents == 0 && b.rider_payout.currency@ == currency
    &&& b.captain_net.amount_cents == 0 && b.captain_net.currency@ == currency
}

/// The zero breakdown in `currency`.
pub fn zero_breakdown(currency: &String) -> (b: PaymentBreakdown)
    ensures
        is_zero_breakdown(b, currency@),
{
    PaymentBreakdown {
        articles: Money::of(0, currency),
        delivery: Money::of(0, currency),
        service_fee: Money::of(0, currency),
        total: Money::of(0, currency),
        restaurant_contribution: Money::of(0, currency),
        restaurant_payout: Money::of(0, currency),
        rider_payout: Money::of(0, currency),
        captain_net: Money::of(0, currency),
    }
}

} // verus!
