//! Server-side pricing: the server is the only price authority on the write path. Every cart line
//! is repriced from the live catalog — the offer's price plus each selected option's price, times
//! the quantity — into priced order lines, the order total and the payment breakdown. Fail-closed: a
//! line whose price cannot be resolved (offer gone, option gone, currency clash) rejects the
//! checkout with `PriceUnresolvable`; no client-supplied amount is ever read.

use vstd::prelude::*;
use crate::errors::{reject1, reject2, ContextValue, DomainError};
use crate::model::{same_offer, CartLineItem, Money, OfferOptionListView, OfferOptionView, OfferView, OrderLineItem,
    PaymentBreakdown, SelectedOption};

verus! {

/// Whether `v` fits in an `i64`.
pub open spec fn in_i64(v: int) -> bool {
    i64::MIN <= v <= i64::MAX
}

/// The first option of `opts` whose id is `id`.
#[verifier::opaque]
pub open spec fn find_in_list(opts: Seq<OfferOptionView>, id: u128) -> Option<OfferOptionView> {
    if exists|i: int| 0 <= i < opts.len() && (#[trigger] opts[i]).id == id {
        Some(opts[choose|i: int| 0 <= i < opts.len() && (#[trigger] opts[i]).id == id
            && forall|j: int| 0 <= j < i ==> (#[trigger] opts[j]).id != id])
    } else {
        None
    }
}

/// The option `id` resolves to on `lists`: the first list holding it, with that list's id.
#[verifier::opaque]
pub open spec fn find_option(lists: Seq<OfferOptionListView>, id: u128) -> Option<(u128, OfferOptionView)> {
    if exists|l: int| 0 <= l < lists.len() && (#[trigger] find_in_list(lists[l].options@, id)) is Some {
        let l = choose|l: int| 0 <= l < lists.len() && (#[trigger] find_in_list(lists[l].options@, id)) is Some
            && forall|m: int| 0 <= m < l ==> (#[trigger] find_in_list(lists[m].options@, id)) is None;
        Some((lists[l].id, find_in_list(lists[l].options@, id)->0))
    } else {
        None
    }
}

/// The selected options, each resolved on the offer's lists, or `None` when one is not there.
#[verifier::opaque]
pub open spec fn selections(lists: Seq<OfferOptionListView>, ids: Seq<u128>) -> Option<Seq<(u128, OfferOptionView)>>
    decreases ids.len(),
{
    if ids.len() == 0 {
        Some(Seq::empty())
    } else {
        match (selections(lists, ids.drop_last()), find_option(lists, ids.last())) {
            (Some(p), Some(f)) => Some(p.push(f)),
            _ => None,
        }
    }
}

/// The sum of the resolved options' prices.
#[verifier::opaque]
pub open spec fn options_sum(sel: Seq<(u128, OfferOptionView)>) -> int
    decreases sel.len(),
{
    if sel.len() == 0 { 0 } else { options_sum(sel.drop_last()) + sel.last().1.price.amount_cents }
}

/// Every resolved option is priced in `cur`.
pub open spec fn currencies_match(sel: Seq<(u128, OfferOptionView)>, cur: Seq<char>) -> bool {
    forall|k: int| 0 <= k < sel.len() ==> (#[trigger] sel[k]).1.price.currency@ == cur
}

/// A line resolves in `cur`: its offer is in the catalog, priced in `cur`, and every selected option
/// is on the offer's lists and priced in `cur`.
pub open spec fn line_resolves(line: CartLineItem, offer: Option<OfferView>, cur: Seq<char>) -> bool {
    match offer {
        None => false,
        Some(o) => {
            &&& o.price.currency@ == cur
            &&& selections(o.option_lists@, line.selected_option_ids@) is Some
            &&& currencies_match(selections(o.option_lists@, line.selected_option_ids@)->0, cur)
        }
    }
}

/// The resolved options of a line.
pub open spec fn line_selection(line: CartLineItem, offer: OfferView) -> Seq<(u128, OfferOptionView)> {
    selections(offer.option_lists@, line.selected_option_ids@)->0
}

/// `lineTotal = (unitPrice + sum(selectedOptions.price)) * quantity`.
pub open spec fn line_total(line: CartLineItem, offer: OfferView) -> int {
    (offer.price.amount_cents + options_sum(line_selection(line, offer))) * line.quantity
}

/// The line's arithmetic stays in `i64`.
pub open spec fn line_fits(line: CartLineItem, offer: OfferView) -> bool {
    let sel = line_selection(line, offer);
    &&& options_fit(sel)
    &&& in_i64(offer.price.amount_cents + options_sum(sel))
    &&& in_i64(line_total(line, offer))
}

/// The currency of the cart: the first line's offer's.
pub open spec fn cart_currency(offers: Seq<Option<OfferView>>) -> Seq<char> {
    if offers.len() > 0 && offers[0] is Some { offers[0]->0.price.currency@ } else { Seq::empty() }
}

/// Lines `0..k` all resolve in `cur`.
pub open spec fn resolve_upto(lines: Seq<CartLineItem>, offers: Seq<Option<OfferView>>, cur: Seq<char>, k: int) -> bool {
    forall|i: int| 0 <= i < k ==> line_resolves(#[trigger] lines[i], offers[i], cur)
}

/// The total of lines `0..k`.
pub open spec fn total_upto(lines: Seq<CartLineItem>, offers: Seq<Option<OfferView>>, k: int) -> int
    decreases k,
{
    if k <= 0 { 0 } else { total_upto(lines, offers, k - 1) + line_total(lines[k - 1], offers[k - 1]->0) }
}

/// The arithmetic of every line priced before the first failure stays in `i64`.
pub open spec fn prices_fit(lines: Seq<CartLineItem>, offers: Seq<Option<OfferView>>) -> bool {
    forall|i: int| 0 <= i < lines.len() && resolve_upto(lines, offers, cart_currency(offers), i + 1)
        ==> line_fits(#[trigger] lines[i], offers[i]->0) && in_i64(total_upto(lines, offers, i + 1))
}

/// The first line that does not resolve.
pub open spec fn first_unresolved(lines: Seq<CartLineItem>, offers: Seq<Option<OfferView>>) -> int {
    choose|i: int| 0 <= i < lines.len() && !line_resolves(lines[i], offers[i], cart_currency(offers))
        && resolve_upto(lines, offers, cart_currency(offers), i)
}

/// `item` is `line` priced from `offer` in `cur`.
pub open spec fn priced_item(item: OrderLineItem, line: CartLineItem, offer: OfferView, cur: Seq<char>) -> bool {
    let sel = line_selection(line, offer);
    &&& item.offer_id == line.offer_id
    &&& item.product_id == Some(offer.product_id)
    &&& item.name == offer.product_name
    &&& item.offer_name == Some(offer.offer_name)
    &&& item.quantity == line.quantity
    &&& item.unit_price == offer.price
    &&& item.selected_options@.len() == sel.len()
    &&& forall|k: int| 0 <= k < sel.len() ==> {
            &&& (#[trigger] item.selected_options@[k]).option_id == sel[k].1.id
            &&& item.selected_options@[k].option_list_id == Some(sel[k].0)
            &&& item.selected_options@[k].name == sel[k].1.name
            &&& item.selected_options@[k].price == sel[k].1.price
        }
    &&& item.line_total.amount_cents == line_total(line, offer)
    &&& item.line_total.currency@ == cur
}

/// The server-priced checkout. Invariant: `total_amount == breakdown.total`.
#[derive(Debug, Clone, PartialEq, Eq)]
pub struct PricedCart {
    pub items: Vec<OrderLineItem>,
    pub total_amount: Money,
    pub breakdown: PaymentBreakdown,
}

/// The V0 breakdown of a priced total: articles = total = restaurant payout, every other leg zero.
pub open spec fn v0_breakdown(b: PaymentBreakdown, total: Money) -> bool {
    &&& b.articles == total
    &&& b.total == total
    &&& b.restaurant_payout == total
    &&& b.delivery.amount_cents == 0 && b.delivery.currency == total.currency
    &&& b.service_fee.amount_cents == 0 && b.service_fee.currency == total.currency
    &&& b.restaurant_contribution.amount_cents == 0 && b.restaurant_contribution.currency == total.currency
    &&& b.rider_payout.amount_cents == 0 && b.rider_payout.currency == total.currency
    &&& b.captain_net.amount_cents == 0 && b.captain_net.currency == total.currency
}

/// `p` is the pricing of `lines` from `offers`.
pub open spec fn priced_as(p: PricedCart, lines: Seq<CartLineItem>, offers: Seq<Option<OfferView>>) -> bool {
    let cur = cart_currency(offers);
    &&& p.items@.len() == lines.len()
    &&& forall|i: int| 0 <= i < lines.len() ==> priced_item(#[trigger] p.items@[i], lines[i], offers[i]->0, cur)
    &&& p.total_amount.amount_cents == total_upto(lines, offers, lines.len() as int)
    &&& p.total_amount.currency@ == cur
    &&& v0_breakdown(p.breakdown, p.total_amount)
}

/// What pricing `lines` from `offers` answers.
pub open spec fn pricing_outcome_ok(cart_id: u128, lines: Seq<CartLineItem>, offers: Seq<Option<OfferView>>,
    r: Result<PricedCart, DomainError>) -> bool
{
    if lines.len() == 0 {
        r is Err && r->Err_0.rejected_code() == Some("CartEmpty"@)
            && r->Err_0.context_value("cartId"@) == Some(ContextValue::Id(cart_id))
    } else if resolve_upto(lines, offers, cart_currency(offers), lines.len() as int) {
        r is Ok && priced_as(r->Ok_0, lines, offers)
    } else {
        r is Err && r->Err_0.rejected_code() == Some("PriceUnresolvable"@)
            && r->Err_0.context_value("cartId"@) == Some(ContextValue::Id(cart_id))
            && r->Err_0.context_value("offerId"@) == Some(ContextValue::Id(lines[first_unresolved(lines, offers)].offer_id))
    }
}

proof fn lemma_find_in_list(opts: Seq<OfferOptionView>, id: u128, i: int)
    requires
        0 <= i < opts.len(),
        opts[i].id == id,
        forall|j: int| 0 <= j < i ==> (#[trigger] opts[j]).id != id,
    ensures
        find_in_list(opts, id) == Some(opts[i]),
{
    reveal(find_in_list);
    let k = choose|k: int| 0 <= k < opts.len() && (#[trigger] opts[k]).id == id
        && forall|j: int| 0 <= j < k ==> (#[trigger] opts[j]).id != id;
    if k < i {
        assert(opts[k].id != id);
    }
    if i < k {
        assert(opts[i].id != id);
    }
}

/// The first option of `opts` with id `id`.
fn find_in_list_exec(opts: &Vec<OfferOptionView>, id: u128) -> (r: Option<usize>)
    ensures
        match r {
            Some(i) => i < opts@.len() && find_in_list(opts@, id) == Some(opts@[i as int]),
            None => find_in_list(opts@, id) is None,
        },
{
    reveal(find_in_list);
    let mut i: usize = 0;
    while i < opts.len()
        invariant
            i <= opts.len(),
            forall|j: int| 0 <= j < i ==> (#[trigger] opts@[j]).id != id,
        decreases opts.len() - i,
    {
        if opts[i].id == id {
            proof {
                lemma_find_in_list(opts@, id, i as int);
            }
            return Some(i);
        }
        i += 1;
    }
    None
}

proof fn lemma_find_option_at(lists: Seq<OfferOptionListView>, id: u128, l: int)
    requires
        0 <= l < lists.len(),
        find_in_list(lists[l].options@, id) is Some,
        forall|m: int| 0 <= m < l ==> (#[trigger] find_in_list(lists[m].options@, id)) is None,
    ensures
        find_option(lists, id) == Some((lists[l].id, find_in_list(lists[l].options@, id)->0)),
{
    reveal(find_option);
    let c = choose|c: int| 0 <= c < lists.len() && (#[trigger] find_in_list(lists[c].options@, id)) is Some
        && forall|m: int| 0 <= m < c ==> (#[trigger] find_in_list(lists[m].options@, id)) is None;
    if c < l {
        assert(find_in_list(lists[c].options@, id) is None);
    }
    if l < c {
        assert(find_in_list(lists[l].options@, id) is None);
    }
}

proof fn lemma_find_option_none(lists: Seq<OfferOptionListView>, id: u128)
    requires
        forall|m: int| 0 <= m < lists.len() ==> (#[trigger] find_in_list(lists[m].options@, id)) is None,
    ensures
        find_option(lists, id) is None,
{
    reveal(find_option);
}

/// Resolves one option id on an offer's lists: (list index, option index).
fn find_option_exec(lists: &Vec<OfferOptionListView>, id: u128) -> (r: Option<(usize, usize)>)
    ensures
        match r {
            Some((l, k)) => l < lists@.len() && k < lists@[l as int].options@.len()
                && find_option(lists@, id) == Some((lists@[l as int].id, lists@[l as int].options@[k as int])),
            None => find_option(lists@, id) is None,
        },
{
    let mut l: usize = 0;
    while l < lists.len()
        invariant
            l <= lists.len(),
            forall|m: int| 0 <= m < l ==> (#[trigger] find_in_list(lists@[m].options@, id)) is None,
        decreases lists.len() - l,
    {
        match find_in_list_exec(&lists[l].options, id) {
            Some(k) => {
                proof {
                    lemma_find_option_at(lists@, id, l as int);
                }
                return Some((l, k));
            }
            None => {}
        }
        l += 1;
    }
    proof {
        lemma_find_option_none(lists@, id);
    }
    None
}

/// When the `k`-th selected option does not resolve, the selection does not either.
proof fn lemma_select_missing(lists: Seq<OfferOptionListView>, ids: Seq<u128>, k: int)
    requires
        0 <= k < ids.len(),
        find_option(lists, ids[k]) is None,
    ensures
        selections(lists, ids) is None,
{
    lemma_selections_prefix(lists, ids, k + 1);
    reveal(selections);
    assert(ids.take(k + 1).drop_last() =~= ids.take(k));
    assert(ids.take(k + 1).last() == ids[k]);
}

proof fn lemma_selections_prefix(lists: Seq<OfferOptionListView>, ids: Seq<u128>, k: int)
    requires
        0 <= k <= ids.len(),
    ensures
        selections(lists, ids.take(k)) is None ==> selections(lists, ids) is None,
        selections(lists, ids) is Some ==> selections(lists, ids.take(k)) == Some(selections(lists, ids)->0.take(k)),
    decreases ids.len(),
{
    reveal(selections);
    if selections(lists, ids) is Some {
        lemma_selections_len(lists, ids);
        let s = selections(lists, ids)->0;
        if k == ids.len() {
            assert(ids.take(k) =~= ids);
            assert(s.take(k) =~= s);
        } else {
            let d = ids.drop_last();
            lemma_selections_prefix(lists, d, k);
            assert(d.take(k) =~= ids.take(k));
            let p = selections(lists, d)->0;
            assert(s == p.push(find_option(lists, ids.last())->0));
            assert(s.take(k) =~= p.take(k));
        }
    }
}

proof fn lemma_selections_len(lists: Seq<OfferOptionListView>, ids: Seq<u128>)
    ensures
        selections(lists, ids) is Some ==> selections(lists, ids)->0.len() == ids.len(),
    decreases ids.len(),
{
    reveal(selections);
    if ids.len() > 0 {
        lemma_selections_len(lists, ids.drop_last());
    }
}

/// The sum of a prefix of resolved options, stepping by one.
proof fn lemma_options_sum_step(sel: Seq<(u128, OfferOptionView)>, k: int)
    requires
        0 <= k < sel.len(),
    ensures
        options_sum(sel.take(k + 1)) == options_sum(sel.take(k)) + sel[k].1.price.amount_cents,
{
    reveal(options_sum);
    assert(sel.take(k + 1).drop_last() =~= sel.take(k));
}

/// Every prefix sum of the options' prices fits in `i64`.
pub open spec fn options_fit(sel: Seq<(u128, OfferOptionView)>) -> bool {
    forall|k: int| 0 <= k <= sel.len() ==> in_i64(#[trigger] options_sum(sel.take(k)))
}

proof fn lemma_select_step(lists: Seq<OfferOptionListView>, ids: Seq<u128>, k: int,
    sel: Seq<(u128, OfferOptionView)>, found: (u128, OfferOptionView))
    requires
        0 <= k < ids.len(),
        selections(lists, ids.take(k)) == Some(sel),
        find_option(lists, ids[k]) == Some(found),
    ensures
        selections(lists, ids.take(k + 1)) == Some(sel.push(found)),
{
    reveal(selections);
    assert(ids.take(k + 1).drop_last() =~= ids.take(k));
    assert(ids.take(k + 1).last() == ids[k]);
}

/// The selected options of a line, each resolved on `lists` and priced in `cur`, with the sum of
/// their prices — or `None` when one is missing, priced in another currency, or the sum overflows.
fn resolve_options(lists: &Vec<OfferOptionListView>, ids: &Vec<u128>, cur: &String)
    -> (r: Option<(Vec<SelectedOption>, i64)>)
    ensures
        match r {
            Some((so, sum)) => {
                &&& selections(lists@, ids@) is Some
                &&& currencies_match(selections(lists@, ids@)->0, cur@)
                &&& options_fit(selections(lists@, ids@)->0)
                &&& sum == options_sum(selections(lists@, ids@)->0)
                &&& so@.len() == ids@.len()
                &&& forall|j: int| 0 <= j < ids@.len() ==> {
                        let e = selections(lists@, ids@)->0[j];
                        &&& (#[trigger] so@[j]).option_id == e.1.id
                        &&& so@[j].option_list_id == Some(e.0)
                        &&& so@[j].name == e.1.name
                        &&& so@[j].price == e.1.price
                    }
            },
            None => !(selections(lists@, ids@) is Some && currencies_match(selections(lists@, ids@)->0, cur@)
                && options_fit(selections(lists@, ids@)->0)),
        },
{
    let ghost all = selections(lists@, ids@);
    proof {
        lemma_selections_len(lists@, ids@);
    }
    let mut selected: Vec<SelectedOption> = Vec::new();
    let ghost mut sel: Seq<(u128, OfferOptionView)> = Seq::empty();
    let mut sum: i64 = 0;
    let mut k: usize = 0;
    proof {
        reveal(selections);
        reveal(options_sum);
        assert(ids@.take(0) =~= Seq::<u128>::empty());
        assert(Seq::<(u128, OfferOptionView)>::empty().take(0) =~= Seq::<(u128, OfferOptionView)>::empty());
    }
    while k < ids.len()
        invariant
            k <= ids@.len(),
            all == selections(lists@, ids@),
            all is Some ==> all->0.len() == ids@.len(),
            selections(lists@, ids@.take(k as int)) == Some(sel),
            sel.len() == k,
            currencies_match(sel, cur@),
            options_fit(sel),
            sum == options_sum(sel),
            selected@.len() == k,
            forall|j: int| 0 <= j < k ==> {
                &&& (#[trigger] selected@[j]).option_id == sel[j].1.id
                &&& selected@[j].option_list_id == Some(sel[j].0)
                &&& selected@[j].name == sel[j].1.name
                &&& selected@[j].price == sel[j].1.price
            },
        decreases ids.len() - k,
    {
        let id = ids[k];
        proof {
            lemma_selections_prefix(lists@, ids@, k as int + 1);
            assert(ids@.take(k as int + 1).drop_last() =~= ids@.take(k as int));
            assert(ids@.take(k as int + 1).last() == id);
        }
        let (l, j) = match find_option_exec(lists, id) {
            Some(p) => p,
            None => {
                proof {
                    lemma_select_missing(lists@, ids@, k as int);
                }
                return None;
            }
        };
        let o = &lists[l].options[j];
        let ghost found = (lists@[l as int].id, *o);
        let ghost s2 = sel.push(found);
        proof {
            lemma_select_step(lists@, ids@, k as int, sel, found);
            if all is Some {
                assert(all->0.take(k as int + 1) == s2);
                assert(all->0[k as int] == s2[k as int]);
            }
        }
        if o.price.currency != *cur {
            return None;
        }
        proof {
            assert(s2.drop_last() =~= sel);
            assert(s2.take(k as int + 1) =~= s2);
            assert(s2.take(k as int) =~= sel);
            lemma_options_sum_step(s2, k as int);
            assert(sel.take(k as int) =~= sel);
            if all is Some && options_fit(all->0) {
                lemma_options_sum_step(all->0, k as int);
                assert(all->0.take(k as int) =~= sel);
                assert(in_i64(options_sum(all->0.take(k as int + 1))));
            }
        }
        let next = match sum.checked_add(o.price.amount_cents) {
            Some(v) => v,
            None => {
                return None;
            }
        };
        sum = next;
        selected.push(SelectedOption {
            option_id: o.id,
            option_list_id: Some(lists[l].id),
            name: o.name.clone(),
            price: o.price.duplicate(),
        });
        proof {
            assert forall|k2: int| 0 <= k2 < s2.len() implies (#[trigger] s2[k2]).1.price.currency@ == cur@ by {
                if k2 < k {
                    assert(s2[k2] == sel[k2]);
                }
            }
            assert forall|k2: int| 0 <= k2 <= s2.len() implies in_i64(#[trigger] options_sum(s2.take(k2))) by {
                if k2 <= k {
                    assert(s2.take(k2) =~= sel.take(k2));
                }
            }
            sel = s2;
        }
        k += 1;
    }
    assert(ids@.take(ids@.len() as int) =~= ids@);
    Some((selected, sum))
}

/// Prices one line resolving in `cur` whose arithmetic fits, or answers `None`.
fn price_line(line: &CartLineItem, offer: &OfferView, cur: &String) -> (r: Option<OrderLineItem>)
    ensures
        match r {
            Some(item) => line_resolves(*line, Some(*offer), cur@) && line_fits(*line, *offer)
                && priced_item(item, *line, *offer, cur@),
            None => !(line_resolves(*line, Some(*offer), cur@) && line_fits(*line, *offer)),
        },
{
    if offer.price.currency != *cur {
        return None;
    }
    let (selected, options_cents) = match resolve_options(&offer.option_lists, &line.selected_option_ids, cur) {
        Some(p) => p,
        None => {
            return None;
        }
    };
    proof {
        lemma_selections_len(offer.option_lists@, line.selected_option_ids@);
    }
    let unit_plus = match offer.price.amount_cents.checked_add(options_cents) {
        Some(v) => v,
        None => {
            return None;
        }
    };
    let total = match unit_plus.checked_mul(line.quantity) {
        Some(v) => v,
        None => {
            return None;
        }
    };
    Some(OrderLineItem {
        offer_id: line.offer_id,
        product_id: Some(offer.product_id),
        name: offer.product_name.clone(),
        offer_name: Some(offer.offer_name.clone()),
        quantity: line.quantity,
        unit_price: offer.price.duplicate(),
        selected_options: selected,
        line_total: Money::of(total, cur),
    })
}

/// The sum of the line totals of `items`.
pub open spec fn items_total(items: Seq<OrderLineItem>) -> int
    decreases items.len(),
{
    if items.len() == 0 { 0 } else { items_total(items.drop_last()) + items.last().line_total.amount_cents }
}

/// Assembles the priced cart from its priced lines.
fn assemble(items: Vec<OrderLineItem>, total: i64, cur: &String) -> (p: PricedCart)
    ensures
        p.items == items,
        p.total_amount.amount_cents == total,
        p.total_amount.currency == *cur,
        v0_breakdown(p.breakdown, p.total_amount),
{
    let total_amount = Money::of(total, cur);
    let breakdown = PaymentBreakdown {
        articles: total_amount.duplicate(),
        delivery: Money::of(0, cur),
        service_fee: Money::of(0, cur),
        total: total_amount.duplicate(),
        restaurant_contribution: Money::of(0, cur),
        restaurant_payout: total_amount.duplicate(),
        rider_payout: Money::of(0, cur),
        captain_net: Money::of(0, cur),
    };
    PricedCart { items, total_amount, breakdown }
}

/// The fail-closed rejection: this line's price cannot be resolved from the live catalog.
fn unresolvable(cart_id: u128, offer_id: u128) -> (e: DomainError)
    ensures
        e.rejected_code() == Some("PriceUnresolvable"@),
        e.context_value("cartId"@) == Some(ContextValue::Id(cart_id)),
        e.context_value("offerId"@) == Some(ContextValue::Id(offer_id)),
{
    proof {
        reveal_strlit("cartId");
        reveal_strlit("offerId");
        assert("cartId"@.len() != "offerId"@.len());
    }
    reject2("PriceUnresolvable", "cartId", ContextValue::Id(cart_id), "offerId", ContextValue::Id(offer_id))
}

proof fn lemma_first_unresolved(lines: Seq<CartLineItem>, offers: Seq<Option<OfferView>>, i: int)
    requires
        0 <= i < lines.len(),
        !line_resolves(lines[i], offers[i], cart_currency(offers)),
        resolve_upto(lines, offers, cart_currency(offers), i),
    ensures
        first_unresolved(lines, offers) == i,
{
    let f = first_unresolved(lines, offers);
    assert(0 <= f < lines.len() && !line_resolves(lines[f], offers[f], cart_currency(offers))
        && resolve_upto(lines, offers, cart_currency(offers), f));
    if f < i {
        assert(line_resolves(lines[f], offers[f], cart_currency(offers)));
    }
    if i < f {
        assert(line_resolves(lines[i], offers[i], cart_currency(offers)));
    }
}

/// Reprices `lines` from `offers` — what the live catalog answered for each line's offer, in line
/// order — into the priced checkout: exactly the lines, each priced
/// `(unitPrice + sum(selectedOptions.price)) * quantity` in the cart's currency, the total of the
/// line totals, and the V0 breakdown; `CartEmpty` for no line; `PriceUnresolvable` naming the first
/// line that does not resolve.
pub fn price_lines(cart_id: u128, lines: &Vec<CartLineItem>, offers: &Vec<Option<OfferView>>) -> (r: Result<PricedCart, DomainError>)
    requires
        lines@.len() == offers@.len(),
        prices_fit(lines@, offers@),
    ensures
        pricing_outcome_ok(cart_id, lines@, offers@, r),
{
    if lines.len() == 0 {
        proof { reveal_strlit("cartId"); }
        return Err(reject1("CartEmpty", "cartId", ContextValue::Id(cart_id)));
    }
    let cur: String = match &offers[0] {
        Some(o) => o.price.currency.clone(),
        None => {
            proof {
                lemma_first_unresolved(lines@, offers@, 0);
            }
            return Err(unresolvable(cart_id, lines[0].offer_id));
        }
    };
    let ghost curs = cart_currency(offers@);
    assert(cur@ == curs);
    let mut items: Vec<OrderLineItem> = Vec::new();
    let mut total: i64 = 0;
    let mut i: usize = 0;
    while i < lines.len()
        invariant
            lines@.len() == offers@.len(),
            prices_fit(lines@, offers@),
            cur@ == curs,
            curs == cart_currency(offers@),
            i <= lines@.len(),
            resolve_upto(lines@, offers@, curs, i as int),
            total == total_upto(lines@, offers@, i as int),
            items@.len() == i,
            forall|j: int| 0 <= j < i ==> priced_item(#[trigger] items@[j], lines@[j], offers@[j]->0, curs),
        decreases lines.len() - i,
    {
        let item = match &offers[i] {
            None => {
                proof {
                    lemma_first_unresolved(lines@, offers@, i as int);
                }
                return Err(unresolvable(cart_id, lines[i].offer_id));
            }
            Some(o) => match price_line(&lines[i], o, &cur) {
                Some(item) => item,
                None => {
                    proof {
                        if line_resolves(lines@[i as int], offers@[i as int], curs) {
                            assert(resolve_upto(lines@, offers@, curs, i as int + 1));
                            assert(line_fits(lines@[i as int], offers@[i as int]->0));
                        }
                        lemma_first_unresolved(lines@, offers@, i as int);
                    }
                    return Err(unresolvable(cart_id, lines[i].offer_id));
                }
            },
        };
        assert(resolve_upto(lines@, offers@, curs, i as int + 1));
        assert(in_i64(total_upto(lines@, offers@, i as int + 1)));
        total = total + item.line_total.amount_cents;
        items.push(item);
        i += 1;
    }
    Ok(assemble(items, total, &cur))
}

/// The live-catalog read port pricing goes through.
pub trait CatalogReadRepository {
    /// Whether `r` is an answer the read model may give for the restaurant's catalog. Nothing is
    /// promised by default; an implementation that promises more says so here.
    open spec fn catalog_answer(&self, restaurant_id: u128, r: Result<Option<CatalogRow>, DomainError>) -> bool {
        true
    }

    /// The restaurant's projected catalog, resolved to its offers (or its absence).
    fn by_restaurant(&self, restaurant_id: u128) -> (r: Result<Option<CatalogRow>, DomainError>)
        ensures
            self.catalog_answer(restaurant_id, r);

    /// One offer of the restaurant's live catalog, if it is there: the offer of a catalog answer
    /// (its first offer with that id, copied), the absence of the catalog, or the failure to read
    /// it. By default, read from the restaurant's whole catalog row (one row read per call).
    fn offer_by_id(&self, restaurant_id: u128, offer_id: u128) -> (r: Result<Option<OfferView>, DomainError>)
        ensures
            exists|a: Result<Option<CatalogRow>, DomainError>| self.catalog_answer(restaurant_id, a) && match a {
                Err(e) => r == Err::<Option<OfferView>, DomainError>(e),
                Ok(None) => r == Ok::<Option<OfferView>, DomainError>(None),
                Ok(Some(row)) => r matches Ok(o) && offer_copy(o, offer_in(row.offers@, offer_id)),
            },
    {
        match self.by_restaurant(restaurant_id) {
            Err(e) => Err(e),
            Ok(None) => Ok(None),
            Ok(Some(row)) => Ok(offer_of_row(&row, offer_id)),
        }
    }
}

/// `found` is a copy of `offer`: both absent, or both present with the same values.
pub open spec fn offer_copy(found: Option<OfferView>, offer: Option<OfferView>) -> bool {
    match (found, offer) {
        (Some(a), Some(b)) => same_offer(a, b),
        (None, None) => true,
        _ => false,
    }
}

/// The first offer of a catalog row with id `offer_id`, copied.
pub fn offer_of_row(row: &CatalogRow, offer_id: u128) -> (r: Option<OfferView>)
    ensures
        match (r, offer_in(row.offers@, offer_id)) {
            (Some(a), Some(b)) => same_offer(a, b),
            (None, None) => true,
            _ => false,
        },
{
    let mut i: usize = 0;
    while i < row.offers.len()
        invariant
            i <= row.offers@.len(),
            forall|j: int| 0 <= j < i ==> (#[trigger] row.offers@[j]).offer_id != offer_id,
        decreases row.offers.len() - i,
    {
        if row.offers[i].offer_id == offer_id {
            proof {
                let k = choose|k: int| 0 <= k < row.offers@.len() && (#[trigger] row.offers@[k]).offer_id == offer_id
                    && forall|j: int| 0 <= j < k ==> (#[trigger] row.offers@[j]).offer_id != offer_id;
                assert(row.offers@[i as int].offer_id == offer_id);
                if k < i {
                    assert(row.offers@[k].offer_id != offer_id);
                }
                if i < k {
                    assert(row.offers@[i as int].offer_id != offer_id);
                }
            }
            return Some(row.offers[i].duplicate());
        }
        i += 1;
    }
    None
}

/// One restaurant's projected catalog, resolved to its offers.
#[derive(Debug, Clone, PartialEq, Eq)]
pub struct CatalogRow {
    pub restaurant_id: u128,
    pub offers: Vec<OfferView>,
}

/// Two catalog rows hold the same values.
pub open spec fn same_row(a: CatalogRow, b: CatalogRow) -> bool {
    &&& a.restaurant_id == b.restaurant_id
    &&& a.offers@.len() == b.offers@.len()
    &&& forall|i: int| 0 <= i < a.offers@.len() ==> same_offer(#[trigger] a.offers@[i], b.offers@[i])
}

impl CatalogRow {
    /// A field-for-field copy.
    pub fn duplicate(&self) -> (r: Self)
        ensures
            same_row(r, *self),
    {
        let mut offers: Vec<OfferView> = Vec::new();
        let mut i: usize = 0;
        while i < self.offers.len()
            invariant
                i <= self.offers.len(),
                offers@.len() == i,
                forall|j: int| 0 <= j < i ==> same_offer(#[trigger] offers@[j], self.offers@[j]),
            decreases self.offers.len() - i,
        {
            offers.push(self.offers[i].duplicate());
            i += 1;
        }
        CatalogRow { restaurant_id: self.restaurant_id, offers }
    }
}

/// The first offer of `offers` with id `offer_id`.
pub open spec fn offer_in(offers: Seq<OfferView>, offer_id: u128) -> Option<OfferView> {
    if exists|i: int| 0 <= i < offers.len() && (#[trigger] offers[i]).offer_id == offer_id {
        Some(offers[choose|i: int| 0 <= i < offers.len() && (#[trigger] offers[i]).offer_id == offer_id
            && forall|j: int| 0 <= j < i ==> (#[trigger] offers[j]).offer_id != offer_id])
    } else {
        None
    }
}

/// `r` is an answer `catalogs.offer_by_id(restaurant_id, offer_id)` may give: the offer of a catalog
/// answer (its first offer with that id, copied), the absence of the catalog, or the failure to read it.
pub open spec fn offer_answer<C: CatalogReadRepository>(catalogs: &C, restaurant_id: u128, offer_id: u128,
    r: Result<Option<OfferView>, DomainError>) -> bool
{
    exists|a: Result<Option<CatalogRow>, DomainError>| catalogs.catalog_answer(restaurant_id, a) && match a {
        Err(e) => r == Err::<Option<OfferView>, DomainError>(e),
        Ok(None) => r == Ok::<Option<OfferView>, DomainError>(None),
        Ok(Some(row)) => r matches Ok(o) && offer_copy(o, offer_in(row.offers@, offer_id)),
    }
}

/// `answers` are what `catalogs` answered for the offers of the first `answers.len()` lines, asked
/// for in line order, each of the cart's restaurant.
pub open spec fn catalog_reads<C: CatalogReadRepository>(catalogs: &C, restaurant_id: u128, lines: Seq<CartLineItem>,
    answers: Seq<Result<Option<OfferView>, DomainError>>) -> bool
{
    &&& answers.len() <= lines.len()
    &&& forall|i: int| 0 <= i < answers.len() ==> offer_answer(catalogs, restaurant_id, lines[i].offer_id, #[trigger] answers[i])
}

/// The offer an answer carries, if any.
pub open spec fn answered_offer(a: Result<Option<OfferView>, DomainError>) -> Option<OfferView> {
    match a {
        Ok(Some(o)) => Some(o),
        _ => None,
    }
}

/// The offers the answers carry, line by line.
pub open spec fn answered_offers(answers: Seq<Result<Option<OfferView>, DomainError>>) -> Seq<Option<OfferView>> {
    answers.map_values(|a: Result<Option<OfferView>, DomainError>| answered_offer(a))
}

/// Line `i` prices from `offers`: it resolves in the cart's currency, its arithmetic fits, and the
/// running total through it still fits.
pub open spec fn line_prices(lines: Seq<CartLineItem>, offers: Seq<Option<OfferView>>, i: int) -> bool {
    &&& line_resolves(lines[i], offers[i], cart_currency(offers))
    &&& line_fits(lines[i], offers[i]->0)
    &&& in_i64(total_upto(lines, offers, i + 1))
}

/// What `price_cart` answers once the catalog gave `answers`, read line by line until the first
/// line that does not price: for no line, `CartEmpty` with nothing read; when the last answer read
/// is the catalog's own failure, that failure; when it carries no offer, or its line does not
/// price, `PriceUnresolvable` naming that line; when every line was read and priced, the pricing
/// of all lines from the offers read.
pub open spec fn price_cart_outcome(cart_id: u128, lines: Seq<CartLineItem>,
    answers: Seq<Result<Option<OfferView>, DomainError>>, r: Result<PricedCart, DomainError>) -> bool
{
    let offers = answered_offers(answers);
    let k = answers.len() as int;
    if lines.len() == 0 {
        &&& k == 0
        &&& r is Err && r->Err_0.rejected_code() == Some("CartEmpty"@)
        &&& r->Err_0.context_value("cartId"@) == Some(ContextValue::Id(cart_id))
    } else {
        &&& 1 <= k <= lines.len()
        &&& forall|i: int| 0 <= i < k - 1 ==> #[trigger] line_prices(lines, offers, i)
        &&& match answers[k - 1] {
            Err(e) => r == Err::<PricedCart, DomainError>(e),
            Ok(_) => if line_prices(lines, offers, k - 1) {
                k == lines.len() && r is Ok && priced_as(r->Ok_0, lines, offers)
            } else {
                &&& r is Err && r->Err_0.rejected_code() == Some("PriceUnresolvable"@)
                &&& r->Err_0.context_value("cartId"@) == Some(ContextValue::Id(cart_id))
                &&& r->Err_0.context_value("offerId"@) == Some(ContextValue::Id(lines[k - 1].offer_id))
            },
        }
    }
}

/// Whether `read` holds the offers the answers carry.
spec fn carries(read: Seq<Option<OfferView>>, answers: Seq<Result<Option<OfferView>, DomainError>>) -> bool {
    read =~= answered_offers(answers)
}

/// Reprices the cart's lines from the live catalog, asking `catalogs` for each line's offer of the
/// cart's restaurant, in line order, and stopping at the first line that does not price. A priced
/// cart is exactly the pricing of the lines from the offers the catalog answered (`priced_as`):
/// every line priced `(unitPrice + sum(selectedOptions.price)) * quantity` in the cart's one
/// currency, the total of the line totals, the V0 breakdown. An empty cart is `CartEmpty`; a line
/// whose offer is missing, whose option is missing, or whose prices clash in currency is
/// `PriceUnresolvable` naming it; an error of the catalog itself is handed back as it came.
pub fn price_cart<C: CatalogReadRepository>(catalogs: &C, cart_id: u128, restaurant_id: u128, lines: &Vec<CartLineItem>)
    -> (r: Result<PricedCart, DomainError>)
    ensures
        exists|answers: Seq<Result<Option<OfferView>, DomainError>>|
            #[trigger] catalog_reads(catalogs, restaurant_id, lines@, answers)
            && price_cart_outcome(cart_id, lines@, answers, r),
{
    if lines.len() == 0 {
        proof {
            reveal_strlit("cartId");
            assert(catalog_reads(catalogs, restaurant_id, lines@, Seq::empty()));
        }
        return Err(reject1("CartEmpty", "cartId", ContextValue::Id(cart_id)));
    }
    let mut cur: String = String::new();
    let mut items: Vec<OrderLineItem> = Vec::new();
    let mut total: i64 = 0;
    let mut i: usize = 0;
    let ghost mut answers: Seq<Result<Option<OfferView>, DomainError>> = Seq::empty();
    let ghost mut read: Seq<Option<OfferView>> = Seq::empty();
    while i < lines.len()
        invariant
            i <= lines@.len(),
            lines@.len() > 0,
            answers.len() == i,
            read.len() == i,
            carries(read, answers),
            forall|j: int| 0 <= j < i ==> offer_answer(catalogs, restaurant_id, lines@[j].offer_id, #[trigger] answers[j]),
            i > 0 ==> cart_currency(read) == cur@,
            forall|j: int| 0 <= j < i ==> #[trigger] line_prices(lines@, read, j),
            total == total_upto(lines@, read, i as int),
            items@.len() == i,
            forall|j: int| 0 <= j < i ==> priced_item(#[trigger] items@[j], lines@[j], read[j]->0, cur@),
        decreases lines.len() - i,
    {
        let answer = catalogs.offer_by_id(restaurant_id, lines[i].offer_id);
        let ghost answers2 = answers.push(answer);
        let ghost read2 = read.push(answered_offer(answer));
        proof {
            assert(carries(read2, answers2));
            assert forall|j: int| 0 <= j < i + 1 implies offer_answer(catalogs, restaurant_id, lines@[j].offer_id,
                #[trigger] answers2[j]) by {
                if j < i {
                    assert(answers2[j] == answers[j]);
                }
            }
            assert(catalog_reads(catalogs, restaurant_id, lines@, answers2));
            if i > 0 {
                assert(read2[0] == read[0]);
                assert(cart_currency(read2) == cart_currency(read));
            }
            assert forall|j: int| 0 <= j < i implies #[trigger] line_prices(lines@, read2, j) by {
                assert(line_prices(lines@, read, j));
                assert(read2[j] == read[j]);
                assert(read2[0] == read[0]);
                lemma_total_upto_prefix(lines@, read, read2, j + 1);
            }
            assert(total_upto(lines@, read2, i as int) == total_upto(lines@, read, i as int)) by {
                lemma_total_upto_prefix(lines@, read, read2, i as int);
            }
        }
        let offer = match answer {
            Ok(Some(o)) => o,
            Ok(None) => {
                return Err(unresolvable(cart_id, lines[i].offer_id));
            }
            Err(e) => {
                return Err(e);
            }
        };
        if i == 0 {
            cur = offer.price.currency.clone();
        }
        proof {
            assert(cart_currency(read2) == cur@);
        }
        let item = match price_line(&lines[i], &offer, &cur) {
            Some(item) => item,
            None => {
                return Err(unresolvable(cart_id, lines[i].offer_id));
            }
        };
        let next = match total.checked_add(item.line_total.amount_cents) {
            Some(v) => v,
            None => {
                return Err(unresolvable(cart_id, lines[i].offer_id));
            }
        };
        total = next;
        items.push(item);
        proof {
            assert forall|j: int| 0 <= j < i + 1 implies priced_item(#[trigger] items@[j], lines@[j], read2[j]->0, cur@) by {
                if j < i {
                    assert(read2[j] == read[j]);
                }
            }
            answers = answers2;
            read = read2;
        }
        i += 1;
    }
    proof {
        let n = lines@.len() as int;
        assert(catalog_reads(catalogs, restaurant_id, lines@, answers));
        assert(line_prices(lines@, read, n - 1));
        assert(read[n - 1] == answered_offer(answers[n - 1]));
        assert(answers[n - 1] is Ok);
    }
    Ok(assemble(items, total, &cur))
}

/// Once every line's offer has been read without a failure of the catalog, and the arithmetic of the
/// lines fits, `price_cart` answers what `price_lines` answers for the offers read: the live read and
/// the repricing of what was read are one rule.
pub proof fn law_price_cart_is_price_lines_on_what_was_read(cart_id: u128, lines: Seq<CartLineItem>,
    answers: Seq<Result<Option<OfferView>, DomainError>>, r: Result<PricedCart, DomainError>)
    requires
        answers.len() == lines.len(),
        forall|i: int| 0 <= i < answers.len() ==> #[trigger] answers[i] is Ok,
        prices_fit(lines, answered_offers(answers)),
        price_cart_outcome(cart_id, lines, answers, r),
    ensures
        pricing_outcome_ok(cart_id, lines, answered_offers(answers), r),
{
    let offers = answered_offers(answers);
    let n = lines.len() as int;
    let cur = cart_currency(offers);
    if n > 0 {
        assert(answers[n - 1] is Ok);
        assert forall|i: int| 0 <= i < n - 1 implies line_resolves(#[trigger] lines[i], offers[i], cur) by {
            assert(line_prices(lines, offers, i));
        }
        if resolve_upto(lines, offers, cur, n) {
            assert(line_resolves(lines[n - 1], offers[n - 1], cur));
            assert(line_fits(lines[n - 1], offers[n - 1]->0) && in_i64(total_upto(lines, offers, n)));
            assert(line_prices(lines, offers, n - 1));
        } else {
            assert(!line_resolves(lines[n - 1], offers[n - 1], cur));
            assert(resolve_upto(lines, offers, cur, n - 1));
            lemma_first_unresolved(lines, offers, n - 1);
        }
    }
}

/// A snapshot never fails a read: whatever restaurant it is asked for, it answers a copy of the
/// offer its own row holds for that restaurant (`answer`), or no offer — so pricing through a
/// snapshot fails only as pricing does, never on the catalog, and prices from its row alone.
pub proof fn law_snapshot_reads_never_fail(snapshot: CatalogSnapshot, restaurant_id: u128, offer_id: u128,
    r: Result<Option<OfferView>, DomainError>)
    requires
        offer_answer(&snapshot, restaurant_id, offer_id, r),
    ensures
        r matches Ok(o) && offer_copy(o, snapshot.answer(restaurant_id, offer_id)),
{
    let a = choose|a: Result<Option<CatalogRow>, DomainError>| snapshot.catalog_answer(restaurant_id, a)
        && match a {
            Err(e) => r == Err::<Option<OfferView>, DomainError>(e),
            Ok(None) => r == Ok::<Option<OfferView>, DomainError>(None),
            Ok(Some(row)) => r matches Ok(o) && offer_copy(o, offer_in(row.offers@, offer_id)),
        };
    if let Ok(Some(row)) = a {
        let own = snapshot.row->0;
        assert(same_row(row, own));
        lemma_offer_in_copies(row.offers@, own.offers@, offer_id);
        let o = r->Ok_0;
        match (o, offer_in(row.offers@, offer_id), offer_in(own.offers@, offer_id)) {
            (Some(x), Some(y), Some(z)) => lemma_same_offer_transitive(x, y, z),
            _ => {},
        }
    }
}

/// Copies of copies are copies.
proof fn lemma_same_offer_transitive(x: OfferView, y: OfferView, z: OfferView)
    requires
        same_offer(x, y),
        same_offer(y, z),
    ensures
        same_offer(x, z),
{
    assert forall|i: int| 0 <= i < x.option_lists@.len() implies
        crate::model::same_list(#[trigger] x.option_lists@[i], z.option_lists@[i]) by {
        assert(crate::model::same_list(x.option_lists@[i], y.option_lists@[i]));
        assert(crate::model::same_list(y.option_lists@[i], z.option_lists@[i]));
    }
}

/// The first offer of `offers[..n]` with id `offer_id`, when there is one.
proof fn lemma_first_offer_holding(offers: Seq<OfferView>, offer_id: u128, n: int) -> (l: int)
    requires
        0 <= n <= offers.len(),
        exists|w: int| 0 <= w < n && (#[trigger] offers[w]).offer_id == offer_id,
    ensures
        0 <= l < n,
        offers[l].offer_id == offer_id,
        forall|m: int| 0 <= m < l ==> (#[trigger] offers[m]).offer_id != offer_id,
    decreases n,
{
    if exists|w: int| 0 <= w < n - 1 && (#[trigger] offers[w]).offer_id == offer_id {
        lemma_first_offer_holding(offers, offer_id, n - 1)
    } else {
        let w = choose|w: int| 0 <= w < n && (#[trigger] offers[w]).offer_id == offer_id;
        assert(w == n - 1);
        n - 1
    }
}

/// `offer_in` finds the first offer with the id.
proof fn lemma_offer_in_at(offers: Seq<OfferView>, offer_id: u128, l: int)
    requires
        0 <= l < offers.len(),
        offers[l].offer_id == offer_id,
        forall|m: int| 0 <= m < l ==> (#[trigger] offers[m]).offer_id != offer_id,
    ensures
        offer_in(offers, offer_id) == Some(offers[l]),
{
    let k = choose|i: int| 0 <= i < offers.len() && (#[trigger] offers[i]).offer_id == offer_id
        && forall|j: int| 0 <= j < i ==> (#[trigger] offers[j]).offer_id != offer_id;
    if k < l {
        assert(offers[k].offer_id != offer_id);
    }
    if l < k {
        assert(offers[l].offer_id != offer_id);
    }
}

/// Looking an offer up in a copied row finds a copy of what the original row holds.
proof fn lemma_offer_in_copies(a: Seq<OfferView>, b: Seq<OfferView>, offer_id: u128)
    requires
        a.len() == b.len(),
        forall|i: int| 0 <= i < a.len() ==> same_offer(#[trigger] a[i], b[i]),
    ensures
        offer_copy(offer_in(a, offer_id), offer_in(b, offer_id)),
{
    assert forall|j: int| 0 <= j < a.len() implies (#[trigger] a[j]).offer_id == b[j].offer_id by {
        assert(same_offer(a[j], b[j]));
    }
    if exists|w: int| 0 <= w < a.len() && (#[trigger] a[w]).offer_id == offer_id {
        let l = lemma_first_offer_holding(a, offer_id, a.len() as int);
        assert(b[l].offer_id == offer_id);
        assert forall|m: int| 0 <= m < l implies (#[trigger] b[m]).offer_id != offer_id by {
            assert(a[m].offer_id != offer_id);
        }
        lemma_offer_in_at(a, offer_id, l);
        lemma_offer_in_at(b, offer_id, l);
        assert(same_offer(a[l], b[l]));
    } else {
        if exists|w: int| 0 <= w < b.len() && (#[trigger] b[w]).offer_id == offer_id {
            let w = choose|w: int| 0 <= w < b.len() && (#[trigger] b[w]).offer_id == offer_id;
            assert(a[w].offer_id == offer_id);
        }
    }
}

/// Two option lists hold the same ids and options, list by list.
pub open spec fn same_lists(a: Seq<OfferOptionListView>, b: Seq<OfferOptionListView>) -> bool {
    &&& a.len() == b.len()
    &&& forall|l: int| 0 <= l < a.len() ==> (#[trigger] a[l]).id == b[l].id && a[l].options@ == b[l].options@
}

/// The first list of `lists[..n]` holding option `id`, when one does.
proof fn lemma_first_list_holding(lists: Seq<OfferOptionListView>, id: u128, n: int) -> (l: int)
    requires
        0 <= n <= lists.len(),
        exists|w: int| 0 <= w < n && (#[trigger] find_in_list(lists[w].options@, id)) is Some,
    ensures
        0 <= l < n,
        find_in_list(lists[l].options@, id) is Some,
        forall|m: int| 0 <= m < l ==> (#[trigger] find_in_list(lists[m].options@, id)) is None,
    decreases n,
{
    if exists|w: int| 0 <= w < n - 1 && (#[trigger] find_in_list(lists[w].options@, id)) is Some {
        lemma_first_list_holding(lists, id, n - 1)
    } else {
        let w = choose|w: int| 0 <= w < n && (#[trigger] find_in_list(lists[w].options@, id)) is Some;
        assert(w == n - 1);
        n - 1
    }
}

/// An option resolves alike on lists holding the same ids and options.
proof fn lemma_find_option_copies(a: Seq<OfferOptionListView>, b: Seq<OfferOptionListView>, id: u128)
    requires
        same_lists(a, b),
    ensures
        find_option(a, id) == find_option(b, id),
{
    assert forall|l: int| 0 <= l < a.len() implies
        #[trigger] find_in_list(a[l].options@, id) == find_in_list(b[l].options@, id) by {
        assert(a[l].options@ == b[l].options@);
    }
    if exists|w: int| 0 <= w < a.len() && (#[trigger] find_in_list(a[w].options@, id)) is Some {
        let l = lemma_first_list_holding(a, id, a.len() as int);
        assert(find_in_list(b[l].options@, id) is Some);
        assert forall|m: int| 0 <= m < l implies (#[trigger] find_in_list(b[m].options@, id)) is None by {
            assert(find_in_list(a[m].options@, id) is None);
        }
        lemma_find_option_at(a, id, l);
        lemma_find_option_at(b, id, l);
        assert(a[l].id == b[l].id);
    } else {
        assert forall|m: int| 0 <= m < b.len() implies (#[trigger] find_in_list(b[m].options@, id)) is None by {
            assert(find_in_list(a[m].options@, id) == find_in_list(b[m].options@, id));
        }
        lemma_find_option_none(a, id);
        lemma_find_option_none(b, id);
    }
}

/// Selections resolve alike on lists holding the same ids and options.
proof fn lemma_selections_copies(a: Seq<OfferOptionListView>, b: Seq<OfferOptionListView>, ids: Seq<u128>)
    requires
        same_lists(a, b),
    ensures
        selections(a, ids) == selections(b, ids),
    decreases ids.len(),
{
    reveal(selections);
    if ids.len() > 0 {
        lemma_selections_copies(a, b, ids.drop_last());
        lemma_find_option_copies(a, b, ids.last());
    }
}

/// A line prices alike from two copies of one offer.
proof fn lemma_line_copies(line: CartLineItem, x: OfferView, y: OfferView)
    requires
        same_offer(x, y),
    ensures
        line_selection(line, x) == line_selection(line, y),
        line_total(line, x) == line_total(line, y),
        forall|cur: Seq<char>| line_resolves(line, Some(x), cur) == #[trigger] line_resolves(line, Some(y), cur),
        line_fits(line, x) == line_fits(line, y),
        forall|item: OrderLineItem, cur: Seq<char>|
            priced_item(item, line, x, cur) == #[trigger] priced_item(item, line, y, cur),
{
    assert(same_lists(x.option_lists@, y.option_lists@)) by {
        assert forall|l: int| 0 <= l < x.option_lists@.len() implies
            (#[trigger] x.option_lists@[l]).id == y.option_lists@[l].id
            && x.option_lists@[l].options@ == y.option_lists@[l].options@ by {
            assert(crate::model::same_list(x.option_lists@[l], y.option_lists@[l]));
        }
    }
    lemma_selections_copies(x.option_lists@, y.option_lists@, line.selected_option_ids@);
}

/// Two sequences of read offers are copies of each other, line by line.
pub open spec fn offers_copied(a: Seq<Option<OfferView>>, b: Seq<Option<OfferView>>) -> bool {
    &&& a.len() == b.len()
    &&& forall|i: int| 0 <= i < a.len() ==> offer_copy(#[trigger] a[i], b[i])
}

/// Totals of lines priced from copied offers agree.
proof fn lemma_total_copies(lines: Seq<CartLineItem>, a: Seq<Option<OfferView>>, b: Seq<Option<OfferView>>, k: int)
    requires
        offers_copied(a, b),
        0 <= k <= a.len(),
    ensures
        total_upto(lines, a, k) == total_upto(lines, b, k),
    decreases k,
{
    if k > 0 {
        lemma_total_copies(lines, a, b, k - 1);
        assert(offer_copy(a[k - 1], b[k - 1]));
        if a[k - 1] is Some {
            lemma_line_copies(lines[k - 1], a[k - 1]->0, b[k - 1]->0);
        }
    }
}

/// A line prices from copied offers exactly when it prices from the originals.
proof fn lemma_line_prices_copies(lines: Seq<CartLineItem>, a: Seq<Option<OfferView>>, b: Seq<Option<OfferView>>, i: int)
    requires
        offers_copied(a, b),
        0 <= i < a.len(),
        a.len() <= lines.len(),
    ensures
        line_prices(lines, a, i) == line_prices(lines, b, i),
        cart_currency(a) == cart_currency(b),
{
    assert(offer_copy(a[0], b[0]));
    assert(offer_copy(a[i], b[i]));
    lemma_total_copies(lines, a, b, i + 1);
    if a[i] is Some {
        lemma_line_copies(lines[i], a[i]->0, b[i]->0);
    }
}

/// Whether line `i` prices is decided by the first `m` offers read, and alike for copies of them.
proof fn lemma_line_prices_agree(lines: Seq<CartLineItem>, o1: Seq<Option<OfferView>>, o2: Seq<Option<OfferView>>,
    m: int, i: int)
    requires
        1 <= m <= lines.len(),
        m <= o1.len(),
        m <= o2.len(),
        forall|j: int| 0 <= j < m ==> offer_copy(#[trigger] o1[j], o2[j]),
        0 <= i < m,
    ensures
        line_prices(lines, o1, i) == line_prices(lines, o2, i),
{
    let p1 = o1.take(m);
    let p2 = o2.take(m);
    assert(offers_copied(p1, p2)) by {
        assert forall|j: int| 0 <= j < p1.len() implies offer_copy(#[trigger] p1[j], p2[j]) by {
            assert(offer_copy(o1[j], o2[j]));
        }
    }
    lemma_line_prices_copies(lines, p1, p2, i);
    lemma_total_upto_prefix(lines, o1, p1, i + 1);
    lemma_total_upto_prefix(lines, o2, p2, i + 1);
    assert(p1[i] == o1[i] && p1[0] == o1[0]);
    assert(p2[i] == o2[i] && p2[0] == o2[0]);
}

/// Pricing reads nothing but the offers' values: two runs over the same cart whose catalogs answered
/// copies of the same offers, line by line and without a failure of the catalog — a live store and a
/// snapshot of the row it serves, say — read as many lines and price the cart alike: both priced to
/// the same total in the same currency, or both refused with the same code for the same line.
pub proof fn law_copied_offers_price_alike(cart_id: u128, lines: Seq<CartLineItem>,
    a1: Seq<Result<Option<OfferView>, DomainError>>, r1: Result<PricedCart, DomainError>,
    a2: Seq<Result<Option<OfferView>, DomainError>>, r2: Result<PricedCart, DomainError>)
    requires
        forall|i: int| 0 <= i < a1.len() ==> (#[trigger] a1[i]) is Ok,
        forall|i: int| 0 <= i < a2.len() ==> (#[trigger] a2[i]) is Ok,
        forall|i: int| 0 <= i < a1.len() && i < a2.len()
            ==> offer_copy(#[trigger] answered_offers(a1)[i], answered_offers(a2)[i]),
        price_cart_outcome(cart_id, lines, a1, r1),
        price_cart_outcome(cart_id, lines, a2, r2),
    ensures
        a1.len() == a2.len(),
        r1 is Ok <==> r2 is Ok,
        r1 is Ok ==> r1->Ok_0.total_amount.amount_cents == r2->Ok_0.total_amount.amount_cents
            && r1->Ok_0.total_amount.currency@ == r2->Ok_0.total_amount.currency@,
        r1 is Err ==> r1->Err_0.rejected_code() == r2->Err_0.rejected_code(),
        r1 is Err && lines.len() > 0 ==> r1->Err_0.context_value("offerId"@) == r2->Err_0.context_value("offerId"@),
{
    let o1 = answered_offers(a1);
    let o2 = answered_offers(a2);
    let k1 = a1.len() as int;
    let k2 = a2.len() as int;
    if lines.len() > 0 {
        let m = if k1 < k2 { k1 } else { k2 };
        assert forall|j: int| 0 <= j < m implies offer_copy(#[trigger] o1[j], o2[j]) by {
            assert(offer_copy(answered_offers(a1)[j], answered_offers(a2)[j]));
        }
        assert(a1[k1 - 1] is Ok);
        assert(a2[k2 - 1] is Ok);
        if k1 < k2 {
            lemma_line_prices_agree(lines, o1, o2, m, k1 - 1);
            assert(line_prices(lines, o2, k1 - 1));
        }
        if k2 < k1 {
            lemma_line_prices_agree(lines, o1, o2, m, k2 - 1);
            assert(line_prices(lines, o1, k2 - 1));
        }
        assert(k1 == k2);
        assert(offers_copied(o1, o2));
        lemma_line_prices_copies(lines, o1, o2, k1 - 1);
        if line_prices(lines, o1, k1 - 1) {
            lemma_total_copies(lines, o1, o2, lines.len() as int);
        }
    }
}

/// A snapshot prices a cart as the live store it was loaded from does: when the store answered each
/// line with a copy of the offer the snapshot's row holds, pricing through the snapshot reads as many
/// lines and comes to the same total in the same currency, or to the same refusal for the same line.
pub proof fn law_snapshot_prices_like_the_store(cart_id: u128, lines: Seq<CartLineItem>,
    store_answers: Seq<Result<Option<OfferView>, DomainError>>, r_store: Result<PricedCart, DomainError>,
    snapshot: CatalogSnapshot, snapshot_answers: Seq<Result<Option<OfferView>, DomainError>>,
    r_snapshot: Result<PricedCart, DomainError>)
    requires
        forall|i: int| 0 <= i < store_answers.len() ==> ((#[trigger] store_answers[i]) matches Ok(o)
            && offer_copy(o, snapshot.answer(snapshot.restaurant_id, lines[i].offer_id))),
        price_cart_outcome(cart_id, lines, store_answers, r_store),
        catalog_reads(&snapshot, snapshot.restaurant_id, lines, snapshot_answers),
        price_cart_outcome(cart_id, lines, snapshot_answers, r_snapshot),
    ensures
        store_answers.len() == snapshot_answers.len(),
        r_store is Ok <==> r_snapshot is Ok,
        r_store is Ok ==> r_store->Ok_0.total_amount.amount_cents == r_snapshot->Ok_0.total_amount.amount_cents
            && r_store->Ok_0.total_amount.currency@ == r_snapshot->Ok_0.total_amount.currency@,
        r_store is Err ==> r_store->Err_0.rejected_code() == r_snapshot->Err_0.rejected_code(),
{
    let rid = snapshot.restaurant_id;
    assert forall|i: int| 0 <= i < snapshot_answers.len() implies ((#[trigger] snapshot_answers[i]) matches Ok(o)
        && offer_copy(o, snapshot.answer(rid, lines[i].offer_id))) by {
        law_snapshot_reads_never_fail(snapshot, rid, lines[i].offer_id, snapshot_answers[i]);
    }
    assert forall|i: int| 0 <= i < store_answers.len() && i < snapshot_answers.len()
        implies offer_copy(#[trigger] answered_offers(store_answers)[i], answered_offers(snapshot_answers)[i]) by {
        let x = answered_offers(store_answers)[i];
        let y = answered_offers(snapshot_answers)[i];
        let z = snapshot.answer(rid, lines[i].offer_id);
        assert(store_answers[i] matches Ok(o) && offer_copy(o, z));
        assert(snapshot_answers[i] matches Ok(o) && offer_copy(o, z));
        if x is Some && y is Some && z is Some {
            lemma_same_offer_symmetric(y->0, z->0);
            lemma_same_offer_transitive(x->0, z->0, y->0);
        }
    }
    law_copied_offers_price_alike(cart_id, lines, store_answers, r_store, snapshot_answers, r_snapshot);
}

/// A copy's original is a copy of it.
proof fn lemma_same_offer_symmetric(x: OfferView, y: OfferView)
    requires
        same_offer(x, y),
    ensures
        same_offer(y, x),
{
    assert forall|i: int| 0 <= i < y.option_lists@.len() implies
        crate::model::same_list(#[trigger] y.option_lists@[i], x.option_lists@[i]) by {
        assert(crate::model::same_list(x.option_lists@[i], y.option_lists@[i]));
    }
}

/// The total of the first `k` lines reads only the first `k` answers.
proof fn lemma_total_upto_prefix(lines: Seq<CartLineItem>, a: Seq<Option<OfferView>>, b: Seq<Option<OfferView>>, k: int)
    requires
        0 <= k <= a.len(),
        k <= b.len(),
        forall|j: int| 0 <= j < k ==> a[j] == b[j],
    ensures
        total_upto(lines, a, k) == total_upto(lines, b, k),
    decreases k,
{
    if k > 0 {
        lemma_total_upto_prefix(lines, a, b, k - 1);
    }
}

/// A one-read catalog memo scoped to one restaurant: its catalog row is loaded once and walked in
/// memory for every line; any other restaurant's lookup answers `None` (fail-closed).
#[derive(Debug, Clone)]
pub struct CatalogSnapshot {
    pub restaurant_id: u128,
    pub row: Option<CatalogRow>,
}

impl CatalogSnapshot {
    /// The one catalog read: `restaurant_id`'s projected catalog row (or its absence).
    pub fn load<C: CatalogReadRepository>(catalogs: &C, restaurant_id: u128) -> (r: Result<Self, DomainError>)
        ensures
            match r {
                Ok(s) => s.restaurant_id == restaurant_id
                    && catalogs.catalog_answer(restaurant_id, Ok::<Option<CatalogRow>, DomainError>(s.row)),
                Err(e) => catalogs.catalog_answer(restaurant_id, Err::<Option<CatalogRow>, DomainError>(e)),
            },
    {
        match catalogs.by_restaurant(restaurant_id) {
            Err(e) => Err(e),
            Ok(row) => Ok(CatalogSnapshot { restaurant_id, row }),
        }
    }

    /// The offer the snapshot answers for `(restaurant_id, offer_id)`.
    pub open spec fn answer(self, restaurant_id: u128, offer_id: u128) -> Option<OfferView> {
        if restaurant_id != self.restaurant_id {
            None
        } else {
            match self.row {
                Some(row) => offer_in(row.offers@, offer_id),
                None => None,
            }
        }
    }
}

impl CatalogReadRepository for CatalogSnapshot {
    /// The snapshot never fails: its own restaurant's answer is (a copy of) its row, any other
    /// restaurant's is no catalog.
    open spec fn catalog_answer(&self, restaurant_id: u128, r: Result<Option<CatalogRow>, DomainError>) -> bool {
        r matches Ok(o) && (restaurant_id == self.restaurant_id ==> match (o, self.row) {
                (Some(a), Some(b)) => same_row(a, b),
                (None, None) => true,
                _ => false,
            })
            && (restaurant_id != self.restaurant_id ==> o is None)
    }

    fn by_restaurant(&self, restaurant_id: u128) -> (r: Result<Option<CatalogRow>, DomainError>)
        ensures
            r matches Ok(o) && (restaurant_id == self.restaurant_id ==> match (o, self.row) {
                    (Some(a), Some(b)) => same_row(a, b),
                    (None, None) => true,
                    _ => false,
                })
                && (restaurant_id != self.restaurant_id ==> o is None),
    {
        if restaurant_id != self.restaurant_id {
            return Ok(None);
        }
        match &self.row {
            None => Ok(None),
            Some(row) => Ok(Some(row.duplicate())),
        }
    }

    fn offer_by_id(&self, restaurant_id: u128, offer_id: u128) -> (r: Result<Option<OfferView>, DomainError>)
        ensures
            r matches Ok(o) && match (o, self.answer(restaurant_id, offer_id)) {
                (Some(a), Some(b)) => same_offer(a, b),
                (None, None) => true,
                _ => false,
            },
    {
        if restaurant_id != self.restaurant_id {
            assert(self.catalog_answer(restaurant_id, Ok::<Option<CatalogRow>, DomainError>(None)));
            return Ok(None);
        }
        match &self.row {
            None => {
                assert(self.catalog_answer(restaurant_id, Ok::<Option<CatalogRow>, DomainError>(None)));
                Ok(None)
            }
            Some(row) => {
                let r = offer_of_row(row, offer_id);
                assert(same_row(*row, *row));
                assert(self.catalog_answer(restaurant_id, Ok::<Option<CatalogRow>, DomainError>(Some(*row))));
                Ok(r)
            }
        }
    }
}

/// A snapshot never answers for another restaurant: a line of restaurant B never prices from
/// restaurant A's catalog.
pub proof fn law_snapshot_is_scoped_to_its_restaurant(snapshot: CatalogSnapshot, restaurant_id: u128, offer_id: u128)
    requires
        restaurant_id != snapshot.restaurant_id,
    ensures
        snapshot.answer(restaurant_id, offer_id) is None,
{
}

/// Pricing is fail-closed: whenever some line's offer is missing from the catalog, the checkout is
/// refused with `PriceUnresolvable`, never priced.
pub proof fn law_missing_offer_is_never_priced(cart_id: u128, lines: Seq<CartLineItem>, offers: Seq<Option<OfferView>>,
    r: Result<PricedCart, DomainError>, missing: int)
    requires
        lines.len() == offers.len(),
        0 <= missing < lines.len(),
        offers[missing] is None,
        pricing_outcome_ok(cart_id, lines, offers, r),
    ensures
        r is Err && r->Err_0.rejected_code() == Some("PriceUnresolvable"@),
{
    assert(!line_resolves(lines[missing], offers[missing], cart_currency(offers)));
}

} // verus!
