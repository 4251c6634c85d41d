//! The catalog's command decisions: every external reference is unique within its catalog, offer
//! prices use the restaurant's currency, a category or option list must exist to be changed, an
//! option list has an option and sensible selection bounds, a product keeps an offer, an import
//! carries every reference, and a catalog's route is unique among its restaurant's catalogs. What
//! only the catalog aggregate can tell (a cycle in the tree, a category or list still in use) is its
//! answer, taken as an argument.

use vstd::prelude::*;
use crate::errors::{has_text, reject, reject1, reject2, ContextValue, DomainError};
use crate::model::Money;

verus! {

/// A category as the catalog folds it.
#[derive(Debug, Clone, PartialEq, Eq)]
pub struct CategoryView {
    pub id: u128,
    pub name: String,
    pub external_ref: Option<String>,
}

/// An option list as the catalog folds it.
#[derive(Debug, Clone, PartialEq, Eq)]
pub struct OptionListView {
    pub id: u128,
    pub name: String,
}

/// What the catalog's decisions read of it, folded from its stream.
#[derive(Debug, Clone, PartialEq, Eq)]
pub struct CatalogState {
    pub restaurant_id: u128,
    pub slug: Option<String>,
    pub categories: Vec<CategoryView>,
    pub product_ids: Vec<u128>,
    pub option_lists: Vec<OptionListView>,
    pub offer_ids: Vec<u128>,
    /// Every external reference already used in the catalog.
    pub refs_in_use: Vec<String>,
}

/// The catalog exists, or the command is refused with `CatalogNotFound`.
pub fn require_catalog<S>(catalog_id: u128, catalog: Option<S>) -> (r: Result<S, DomainError>)
    ensures
        catalog matches Some(s) ==> r == Ok::<S, DomainError>(s),
        catalog is None ==> r is Err && r->Err_0.rejected_code() == Some("CatalogNotFound"@)
            && r->Err_0.context_value("catalogId"@) == Some(ContextValue::Id(catalog_id)),
{
    match catalog {
        Some(s) => Ok(s),
        None => Err(reject1("CatalogNotFound", "catalogId", ContextValue::Id(catalog_id))),
    }
}

/// Whether `refs` holds the text `r`.
pub open spec fn holds_ref(refs: Seq<String>, r: Seq<char>) -> bool {
    exists|i: int| 0 <= i < refs.len() && (#[trigger] refs[i])@ == r
}

fn find_ref(refs: &Vec<String>, r: &String, upto: usize) -> (b: bool)
    requires
        upto <= refs@.len(),
    ensures
        b == holds_ref(refs@.take(upto as int), r@),
{
    let mut i: usize = 0;
    while i < upto
        invariant
            upto <= refs@.len(),
            i <= upto,
            forall|j: int| 0 <= j < i ==> (#[trigger] refs@[j])@ != r@,
        decreases upto - i,
    {
        if refs[i] == *r {
            assert(refs@.take(upto as int)[i as int] == refs@[i as int]);
            return true;
        }
        i += 1;
    }
    assert forall|j: int| 0 <= j < refs@.take(upto as int).len() implies (#[trigger] refs@.take(upto as int)[j])@ != r@ by {
        assert(refs@.take(upto as int)[j] == refs@[j]);
    }
    false
}

/// Candidate `i` clashes: its reference is already in use in the catalog, or an earlier candidate
/// carries it too.
pub open spec fn ref_clash(in_use: Seq<String>, candidates: Seq<String>, i: int) -> bool {
    holds_ref(in_use, candidates[i]@) || holds_ref(candidates.take(i), candidates[i]@)
}

/// What the reference check answers: no clash is fine; otherwise `RefNotUnique` names the first
/// clashing reference and the catalog.
pub open spec fn refs_unique_outcome(in_use: Seq<String>, candidates: Seq<String>, catalog_id: u128,
    r: Result<(), DomainError>) -> bool
{
    &&& ((forall|i: int| 0 <= i < candidates.len() ==> !ref_clash(in_use, candidates, i)) ==> r is Ok)
    &&& ((exists|i: int| 0 <= i < candidates.len() && ref_clash(in_use, candidates, i)) ==> r is Err && {
        let e = r->Err_0;
        &&& e.rejected_code() == Some("RefNotUnique"@)
        &&& e.context_value("catalogId"@) == Some(ContextValue::Id(catalog_id))
        &&& exists|i: int| 0 <= i < candidates.len() && ref_clash(in_use, candidates, i)
            && (forall|j: int| 0 <= j < i ==> !ref_clash(in_use, candidates, j))
            && has_text(e, "ref"@, candidates[i]@)
    })
}

/// Every candidate reference must be fresh within the catalog: not in use, and not repeated among
/// the candidates.
pub fn ensure_refs_unique(in_use: &Vec<String>, candidates: &Vec<String>, catalog_id: u128) -> (r: Result<(), DomainError>)
    ensures
        refs_unique_outcome(in_use@, candidates@, catalog_id, r),
{
    let mut i: usize = 0;
    while i < candidates.len()
        invariant
            i <= candidates@.len(),
            forall|j: int| 0 <= j < i ==> !ref_clash(in_use@, candidates@, j),
        decreases candidates.len() - i,
    {
        let used = find_ref(in_use, &candidates[i], in_use.len());
        let repeated = find_ref(candidates, &candidates[i], i);
        proof {
            assert(in_use@.take(in_use@.len() as int) =~= in_use@);
        }
        if used || repeated {
            proof {
                reveal_strlit("ref");
                reveal_strlit("catalogId");
                assert("ref"@.len() != "catalogId"@.len());
            }
            let e = reject2("RefNotUnique", "ref", ContextValue::Text(candidates[i].clone()), "catalogId",
                ContextValue::Id(catalog_id));
            assert(ref_clash(in_use@, candidates@, i as int));
            return Err(e);
        }
        i += 1;
    }
    Ok(())
}

/// No two references of `refs` are the same text.
pub open spec fn refs_distinct(refs: Seq<String>) -> bool {
    forall|i: int, j: int| 0 <= i < j < refs.len() ==> (#[trigger] refs[i])@ != (#[trigger] refs[j])@
}

/// References stay unique within a catalog: when the catalog's references are distinct and the
/// check accepts the candidates, the catalog's references with the candidates added are distinct.
pub proof fn law_accepted_refs_stay_unique(in_use: Seq<String>, candidates: Seq<String>, catalog_id: u128,
    r: Result<(), DomainError>)
    requires
        refs_distinct(in_use),
        refs_unique_outcome(in_use, candidates, catalog_id, r),
        r is Ok,
    ensures
        refs_distinct(in_use + candidates),
{
    let all = in_use + candidates;
    assert forall|i: int, j: int| 0 <= i < j < all.len() implies (#[trigger] all[i])@ != (#[trigger] all[j])@ by {
        if j >= in_use.len() {
            let k = j - in_use.len();
            assert(!ref_clash(in_use, candidates, k));
            if i < in_use.len() {
                assert(all[i] == in_use[i]);
                assert(!holds_ref(in_use, candidates[k]@));
            } else {
                let m = i - in_use.len();
                assert(candidates.take(k)[m] == candidates[m]);
                assert(!holds_ref(candidates.take(k), candidates[k]@));
            }
        }
    }
}

/// What the currency check reads of the restaurant's read-model row.
#[derive(Debug, Clone, PartialEq, Eq)]
pub struct RestaurantCurrency {
    pub display_name: String,
    pub default_currency: String,
}

/// Every price is in `currency`.
pub open spec fn priced_in(prices: Seq<Money>, currency: Seq<char>) -> bool {
    forall|i: int| 0 <= i < prices.len() ==> (#[trigger] prices[i]).currency@ == currency
}

/// The prices pass the currency check: the restaurant is not in the read model yet, or every price
/// is in its default currency.
pub open spec fn currency_ok(restaurant: Option<RestaurantCurrency>, prices: Seq<Money>) -> bool {
    restaurant matches Some(row) ==> priced_in(prices, row.default_currency@)
}

/// Every price uses the restaurant's default currency (else `CurrencyMismatch`, naming the
/// restaurant and its currency). A restaurant not yet in the read model skips the check.
pub fn ensure_prices_use_restaurant_currency(restaurant: &Option<RestaurantCurrency>, prices: &Vec<Money>)
    -> (r: Result<(), DomainError>)
    ensures
        currency_ok(*restaurant, prices@) ==> r is Ok,
        !currency_ok(*restaurant, prices@) ==> r is Err && r->Err_0.rejected_code() == Some("CurrencyMismatch"@)
            && has_text(r->Err_0, "restaurantName"@, restaurant->0.display_name@)
            && has_text(r->Err_0, "currency"@, restaurant->0.default_currency@),
{
    let row = match restaurant {
        None => {
            return Ok(());
        }
        Some(row) => row,
    };
    let mut i: usize = 0;
    while i < prices.len()
        invariant
            *restaurant == Some(*row),
            i <= prices@.len(),
            forall|j: int| 0 <= j < i ==> (#[trigger] prices@[j]).currency@ == row.default_currency@,
        decreases prices.len() - i,
    {
        if !(prices[i].currency == row.default_currency) {
            proof {
                reveal_strlit("restaurantName");
                reveal_strlit("currency");
                assert("restaurantName"@.len() != "currency"@.len());
            }
            return Err(reject2("CurrencyMismatch", "restaurantName", ContextValue::Text(row.display_name.clone()),
                "currency", ContextValue::Text(row.default_currency.clone())));
        }
        i += 1;
    }
    Ok(())
}

/// An offer of a product command: its price and external reference.
#[derive(Debug, Clone, PartialEq, Eq)]
pub struct OfferInput {
    pub price: Money,
    pub external_ref: Option<String>,
}

/// The prices of the offers, in order.
pub open spec fn prices_of(offers: Seq<OfferInput>) -> Seq<Money> {
    offers.map_values(|o: OfferInput| o.price)
}

fn offer_prices(offers: &Vec<OfferInput>) -> (p: Vec<Money>)
    ensures
        p@ == prices_of(offers@),
{
    let mut p: Vec<Money> = Vec::new();
    let mut i: usize = 0;
    while i < offers.len()
        invariant
            i <= offers@.len(),
            p@ == prices_of(offers@.take(i as int)),
        decreases offers.len() - i,
    {
        p.push(offers[i].price.duplicate());
        i += 1;
        assert(prices_of(offers@.take(i as int)) =~= prices_of(offers@.take(i - 1)).push(offers@[i - 1].price));
    }
    assert(offers@.take(offers@.len() as int) =~= offers@);
    p
}

/// The references a product and its offers bring, in order: the product's own, then each offer's
/// that carries one.
pub open spec fn present_refs(offers: Seq<OfferInput>) -> Seq<String>
    decreases offers.len(),
{
    if offers.len() == 0 {
        Seq::empty()
    } else {
        present_refs(offers.drop_last()) + match offers.last().external_ref {
            Some(r) => seq![r],
            None => Seq::empty(),
        }
    }
}

/// The candidate references of a product.
pub open spec fn product_refs(product_ref: Option<String>, offers: Seq<OfferInput>) -> Seq<String> {
    match product_ref {
        Some(r) => seq![r] + present_refs(offers),
        None => present_refs(offers),
    }
}

fn candidate_refs(product_ref: &Option<String>, offers: &Vec<OfferInput>) -> (c: Vec<String>)
    ensures
        c@ == product_refs(*product_ref, offers@),
{
    let mut c: Vec<String> = Vec::new();
    if let Some(r) = product_ref {
        c.push(r.clone());
    }
    let ghost head = c@;
    let mut i: usize = 0;
    while i < offers.len()
        invariant
            i <= offers@.len(),
            c@ == head + present_refs(offers@.take(i as int)),
        decreases offers.len() - i,
    {
        assert(offers@.take(i + 1).drop_last() =~= offers@.take(i as int));
        if let Some(r) = &offers[i].external_ref {
            c.push(r.clone());
        }
        i += 1;
        assert(c@ =~= head + present_refs(offers@.take(i as int)));
    }
    assert(offers@.take(offers@.len() as int) =~= offers@);
    proof {
        if product_ref is Some {
            assert(head =~= seq![product_ref->0]);
        } else {
            assert(head =~= Seq::<String>::empty());
        }
    }
    c
}

/// Whether the folded tree has a category with reference `r`.
pub open spec fn has_category_ref(categories: Seq<CategoryView>, r: Seq<char>) -> bool {
    exists|i: int| 0 <= i < categories.len() && ((#[trigger] categories[i]).external_ref matches Some(c) && c@ == r)
}

fn category_ref_resolves(categories: &Vec<CategoryView>, r: &String) -> (b: bool)
    ensures
        b == has_category_ref(categories@, r@),
{
    let mut i: usize = 0;
    while i < categories.len()
        invariant
            i <= categories@.len(),
            forall|j: int| 0 <= j < i ==> !((#[trigger] categories@[j]).external_ref matches Some(c) && c@ == r@),
        decreases categories.len() - i,
    {
        if let Some(c) = &categories[i].external_ref {
            if *c == *r {
                return true;
            }
        }
        i += 1;
    }
    false
}

/// The guards of adding a product, in order: the offers' prices use the restaurant's currency; a
/// category reference resolves in the folded tree (`CatalogCategoryRefNotFound`); the product's and
/// offers' references are fresh within the catalog (`RefNotUnique`).
pub fn add_product(catalog_id: u128, catalog: &CatalogState, restaurant: &Option<RestaurantCurrency>,
    product_ref: &Option<String>, category_ref: &Option<String>, offers: &Vec<OfferInput>) -> (r: Result<(), DomainError>)
    ensures
        !currency_ok(*restaurant, prices_of(offers@)) ==> r is Err
            && r->Err_0.rejected_code() == Some("CurrencyMismatch"@),
        currency_ok(*restaurant, prices_of(offers@))
            && (category_ref matches Some(c) && !has_category_ref(catalog.categories@, c@))
            ==> r is Err && r->Err_0.rejected_code() == Some("CatalogCategoryRefNotFound"@)
            && has_text(r->Err_0, "ref"@, category_ref->0@),
        currency_ok(*restaurant, prices_of(offers@))
            && (category_ref matches Some(c) ==> has_category_ref(catalog.categories@, c@))
            ==> refs_unique_outcome(catalog.refs_in_use@, product_refs(*product_ref, offers@), catalog_id, r),
{
    let prices = offer_prices(offers);
    ensure_prices_use_restaurant_currency(restaurant, &prices)?;
    if let Some(c) = category_ref {
        if !category_ref_resolves(&catalog.categories, c) {
            return Err(reject1("CatalogCategoryRefNotFound", "ref", ContextValue::Text(c.clone())));
        }
    }
    let candidates = candidate_refs(product_ref, offers);
    ensure_refs_unique(&catalog.refs_in_use, &candidates, catalog_id)
}

/// Whether `ids` holds `id`.
fn holds_id(ids: &Vec<u128>, id: u128) -> (b: bool)
    ensures
        b == ids@.contains(id),
{
    crate::cart::ids_contain(ids, id)
}

/// The product exists in an existing catalog, or the command is refused with `ProductNotFound`
/// (the only not-found these commands declare).
pub fn require_product(product_id: u128, catalog: &Option<CatalogState>) -> (r: Result<(), DomainError>)
    ensures
        (catalog matches Some(c) && c.product_ids@.contains(product_id)) ==> r is Ok,
        !(catalog matches Some(c) && c.product_ids@.contains(product_id)) ==> r is Err
            && r->Err_0.rejected_code() == Some("ProductNotFound"@)
            && r->Err_0.context_value("productId"@) == Some(ContextValue::Id(product_id)),
{
    let found = match catalog {
        Some(c) => holds_id(&c.product_ids, product_id),
        None => false,
    };
    if !found {
        return Err(reject1("ProductNotFound", "productId", ContextValue::Id(product_id)));
    }
    Ok(())
}

/// An updated product keeps at least one offer (`ProductMustHaveOffer`, naming it) and its offers
/// use the restaurant's currency.
pub fn update_product(product_id: u128, product_name: &String, offers: &Vec<OfferInput>,
    restaurant: &Option<RestaurantCurrency>) -> (r: Result<(), DomainError>)
    ensures
        offers@.len() == 0 ==> r is Err && r->Err_0.rejected_code() == Some("ProductMustHaveOffer"@)
            && r->Err_0.context_value("productId"@) == Some(ContextValue::Id(product_id))
            && has_text(r->Err_0, "productName"@, product_name@),
        offers@.len() > 0 && currency_ok(*restaurant, prices_of(offers@)) ==> r is Ok,
        offers@.len() > 0 && !currency_ok(*restaurant, prices_of(offers@)) ==> r is Err
            && r->Err_0.rejected_code() == Some("CurrencyMismatch"@),
{
    if offers.len() == 0 {
        proof {
            reveal_strlit("productId");
            reveal_strlit("productName");
            assert("productId"@.len() != "productName"@.len());
        }
        return Err(reject2("ProductMustHaveOffer", "productId", ContextValue::Id(product_id), "productName",
            ContextValue::Text(product_name.clone())));
    }
    let prices = offer_prices(offers);
    ensure_prices_use_restaurant_currency(restaurant, &prices)
}

/// A new category's parent reference resolves in the folded tree (`ParentCatalogCategoryNotFound`)
/// and its own reference is fresh within the catalog (`RefNotUnique`).
pub fn add_catalog_category(catalog_id: u128, catalog: &CatalogState, parent_ref: &Option<String>,
    category_ref: &Option<String>) -> (r: Result<(), DomainError>)
    ensures
        (parent_ref matches Some(p) && !has_category_ref(catalog.categories@, p@)) ==> r is Err
            && r->Err_0.rejected_code() == Some("ParentCatalogCategoryNotFound"@)
            && has_text(r->Err_0, "parentRef"@, parent_ref->0@),
        !(parent_ref matches Some(p) && !has_category_ref(catalog.categories@, p@)) ==> match *category_ref {
            Some(c) => (holds_ref(catalog.refs_in_use@, c@) ==> r is Err && r->Err_0.rejected_code() == Some("RefNotUnique"@)
                    && has_text(r->Err_0, "ref"@, c@))
                && (!holds_ref(catalog.refs_in_use@, c@) ==> r is Ok),
            None => r is Ok,
        },
{
    if let Some(p) = parent_ref {
        if !category_ref_resolves(&catalog.categories, p) {
            return Err(reject1("ParentCatalogCategoryNotFound", "parentRef", ContextValue::Text(p.clone())));
        }
    }
    let mut candidates: Vec<String> = Vec::new();
    if let Some(c) = category_ref {
        candidates.push(c.clone());
    }
    let r = ensure_refs_unique(&catalog.refs_in_use, &candidates, catalog_id);
    proof {
        if candidates@.len() == 1 {
            assert(candidates@.take(0) =~= Seq::<String>::empty());
            assert(!holds_ref(candidates@.take(0), candidates@[0]@));
            if holds_ref(catalog.refs_in_use@, candidates@[0]@) {
                assert(ref_clash(catalog.refs_in_use@, candidates@, 0));
            }
        }
    }
    r
}

/// Whether the tree holds the category `id`, and its name.
fn category_named(categories: &Vec<CategoryView>, id: u128) -> (r: Option<String>)
    ensures
        r is Some <==> exists|i: int| 0 <= i < categories@.len() && (#[trigger] categories@[i]).id == id,
        r matches Some(n) ==> exists|i: int| 0 <= i < categories@.len() && (#[trigger] categories@[i]).id == id
            && categories@[i].name == n,
{
    let mut i: usize = 0;
    while i < categories.len()
        invariant
            i <= categories@.len(),
            forall|j: int| 0 <= j < i ==> (#[trigger] categories@[j]).id != id,
        decreases categories.len() - i,
    {
        if categories[i].id == id {
            return Some(categories[i].name.clone());
        }
        i += 1;
    }
    None
}

/// Whether the tree holds the category `id`.
pub open spec fn has_category(catalog: Option<CatalogState>, id: u128) -> bool {
    catalog matches Some(c) && exists|i: int| 0 <= i < c.categories@.len() && (#[trigger] c.categories@[i]).id == id
}

fn category_not_found(id: u128) -> (e: DomainError)
    ensures
        e.rejected_code() == Some("CatalogCategoryNotFound"@),
        e.context_value("productCategoryId"@) == Some(ContextValue::Id(id)),
{
    reject1("CatalogCategoryNotFound", "productCategoryId", ContextValue::Id(id))
}

/// A category is updated only if it exists (`CatalogCategoryNotFound`, also for a missing catalog)
/// and the new parent does not loop the tree (`CatalogCategoryCycle`, naming it); `would_cycle` is
/// the catalog's own answer.
pub fn update_catalog_category(category_id: u128, category_name: &String, catalog: &Option<CatalogState>,
    would_cycle: bool) -> (r: Result<(), DomainError>)
    ensures
        !has_category(*catalog, category_id) ==> r is Err
            && r->Err_0.rejected_code() == Some("CatalogCategoryNotFound"@)
            && r->Err_0.context_value("productCategoryId"@) == Some(ContextValue::Id(category_id)),
        has_category(*catalog, category_id) && would_cycle ==> r is Err
            && r->Err_0.rejected_code() == Some("CatalogCategoryCycle"@)
            && r->Err_0.context_value("productCategoryId"@) == Some(ContextValue::Id(category_id))
            && has_text(r->Err_0, "categoryName"@, category_name@),
        has_category(*catalog, category_id) && !would_cycle ==> r is Ok,
{
    let found = match catalog {
        Some(c) => category_named(&c.categories, category_id).is_some(),
        None => false,
    };
    if !found {
        return Err(category_not_found(category_id));
    }
    if would_cycle {
        proof {
            reveal_strlit("productCategoryId");
            reveal_strlit("categoryName");
            assert("productCategoryId"@.len() != "categoryName"@.len());
        }
        return Err(reject2("CatalogCategoryCycle", "productCategoryId", ContextValue::Id(category_id), "categoryName",
            ContextValue::Text(category_name.clone())));
    }
    Ok(())
}

/// A category is removed only if it exists (`CatalogCategoryNotFound`) and nothing depends on it
/// (`CatalogCategoryNotEmpty`, naming the folded category); `has_dependents` is the catalog's own
/// answer.
pub fn remove_catalog_category(category_id: u128, catalog: &Option<CatalogState>, has_dependents: bool)
    -> (r: Result<(), DomainError>)
    ensures
        !has_category(*catalog, category_id) ==> r is Err
            && r->Err_0.rejected_code() == Some("CatalogCategoryNotFound"@)
            && r->Err_0.context_value("productCategoryId"@) == Some(ContextValue::Id(category_id)),
        has_category(*catalog, category_id) && has_dependents ==> r is Err
            && r->Err_0.rejected_code() == Some("CatalogCategoryNotEmpty"@)
            && r->Err_0.context_value("productCategoryId"@) == Some(ContextValue::Id(category_id))
            && (r->Err_0.context_value("categoryName"@) matches Some(ContextValue::Text(n))
                && exists|i: int| 0 <= i < catalog->0.categories@.len()
                    && (#[trigger] catalog->0.categories@[i]).id == category_id && catalog->0.categories@[i].name == n),
        has_category(*catalog, category_id) && !has_dependents ==> r is Ok,
{
    let name = match catalog {
        Some(c) => category_named(&c.categories, category_id),
        None => None,
    };
    match name {
        None => Err(category_not_found(category_id)),
        Some(n) => {
            if has_dependents {
                proof {
                    reveal_strlit("productCategoryId");
                    reveal_strlit("categoryName");
                    assert("productCategoryId"@.len() != "categoryName"@.len());
                }
                return Err(reject2("CatalogCategoryNotEmpty", "productCategoryId", ContextValue::Id(category_id),
                    "categoryName", ContextValue::Text(n)));
            }
            Ok(())
        }
    }
}

/// An option list of a command: identity, reference, selection bounds and its options' references.
#[derive(Debug, Clone, PartialEq, Eq)]
pub struct OptionListInput {
    pub id: u128,
    pub name: String,
    pub external_ref: Option<String>,
    pub min_selections: i64,
    pub max_selections: Option<i64>,
    pub option_refs: Vec<Option<String>>,
}

/// The selection bounds are out of range: a negative minimum, a minimum above the maximum, or a
/// minimum above the number of options.
pub open spec fn bounds_invalid(ol: OptionListInput) -> bool {
    ol.min_selections < 0 || (ol.max_selections matches Some(max) && ol.min_selections > max)
        || ol.min_selections > ol.option_refs@.len()
}

fn option_list_rejection(code: &str, ol: &OptionListInput) -> (e: DomainError)
    ensures
        e.rejected_code() == Some(code@),
        e.context_value("optionListId"@) == Some(ContextValue::Id(ol.id)),
        has_text(e, "optionListName"@, ol.name@),
{
    proof {
        reveal_strlit("optionListId");
        reveal_strlit("optionListName");
        assert("optionListId"@.len() != "optionListName"@.len());
    }
    reject2(code, "optionListId", ContextValue::Id(ol.id), "optionListName", ContextValue::Text(ol.name.clone()))
}

/// A new option list has an option (`OptionListMustHaveOption`) and selection bounds in range
/// (`InvalidSelectionBounds`), both naming it.
pub fn add_option_list(ol: &OptionListInput) -> (r: Result<(), DomainError>)
    ensures
        ol.option_refs@.len() == 0 ==> r is Err && r->Err_0.rejected_code() == Some("OptionListMustHaveOption"@)
            && r->Err_0.context_value("optionListId"@) == Some(ContextValue::Id(ol.id)),
        ol.option_refs@.len() > 0 && bounds_invalid(*ol) ==> r is Err
            && r->Err_0.rejected_code() == Some("InvalidSelectionBounds"@)
            && r->Err_0.context_value("optionListId"@) == Some(ContextValue::Id(ol.id))
            && has_text(r->Err_0, "optionListName"@, ol.name@),
        ol.option_refs@.len() > 0 && !bounds_invalid(*ol) ==> r is Ok,
{
    if ol.option_refs.len() == 0 {
        return Err(option_list_rejection("OptionListMustHaveOption", ol));
    }
    let n = ol.option_refs.len();
    let over_max = match ol.max_selections {
        Some(max) => ol.min_selections > max,
        None => false,
    };
    let over_count = ol.min_selections >= 0 && (ol.min_selections as u64) > (n as u64);
    if ol.min_selections < 0 || over_max || over_count {
        return Err(option_list_rejection("InvalidSelectionBounds", ol));
    }
    Ok(())
}

/// Whether the catalog holds the option list `id`, and its name.
pub open spec fn has_option_list(catalog: Option<CatalogState>, id: u128) -> bool {
    catalog matches Some(c) && exists|i: int| 0 <= i < c.option_lists@.len() && (#[trigger] c.option_lists@[i]).id == id
}

fn option_list_named(lists: &Vec<OptionListView>, id: u128) -> (r: Option<String>)
    ensures
        r is Some <==> exists|i: int| 0 <= i < lists@.len() && (#[trigger] lists@[i]).id == id,
        r matches Some(n) ==> exists|i: int| 0 <= i < lists@.len() && (#[trigger] lists@[i]).id == id && lists@[i].name == n,
{
    let mut i: usize = 0;
    while i < lists.len()
        invariant
            i <= lists@.len(),
            forall|j: int| 0 <= j < i ==> (#[trigger] lists@[j]).id != id,
        decreases lists.len() - i,
    {
        if lists[i].id == id {
            return Some(lists[i].name.clone());
        }
        i += 1;
    }
    None
}

fn find_option_list(catalog: &Option<CatalogState>, id: u128) -> (r: Option<String>)
    ensures
        r is Some <==> has_option_list(*catalog, id),
        r matches Some(n) ==> exists|i: int| 0 <= i < catalog->0.option_lists@.len()
            && (#[trigger] catalog->0.option_lists@[i]).id == id && catalog->0.option_lists@[i].name == n,
{
    match catalog {
        Some(c) => option_list_named(&c.option_lists, id),
        None => None,
    }
}

/// An option list is updated only if it exists (`OptionListNotFound`, also for a missing catalog)
/// and keeps an option (`OptionListMustHaveOption`).
pub fn update_option_list(ol: &OptionListInput, catalog: &Option<CatalogState>) -> (r: Result<(), DomainError>)
    ensures
        !has_option_list(*catalog, ol.id) ==> r is Err && r->Err_0.rejected_code() == Some("OptionListNotFound"@)
            && r->Err_0.context_value("optionListId"@) == Some(ContextValue::Id(ol.id)),
        has_option_list(*catalog, ol.id) && ol.option_refs@.len() == 0 ==> r is Err
            && r->Err_0.rejected_code() == Some("OptionListMustHaveOption"@)
            && r->Err_0.context_value("optionListId"@) == Some(ContextValue::Id(ol.id)),
        has_option_list(*catalog, ol.id) && ol.option_refs@.len() > 0 ==> r is Ok,
{
    if find_option_list(catalog, ol.id).is_none() {
        return Err(reject1("OptionListNotFound", "optionListId", ContextValue::Id(ol.id)));
    }
    if ol.option_refs.len() == 0 {
        return Err(option_list_rejection("OptionListMustHaveOption", ol));
    }
    Ok(())
}

/// An option list is removed only if it exists (`OptionListNotFound`) and no offer references it
/// (`OptionListInUse`, naming the folded list); `in_use` is the catalog's own answer.
pub fn remove_option_list(option_list_id: u128, catalog: &Option<CatalogState>, in_use: bool) -> (r: Result<(), DomainError>)
    ensures
        !has_option_list(*catalog, option_list_id) ==> r is Err
            && r->Err_0.rejected_code() == Some("OptionListNotFound"@)
            && r->Err_0.context_value("optionListId"@) == Some(ContextValue::Id(option_list_id)),
        has_option_list(*catalog, option_list_id) && in_use ==> r is Err
            && r->Err_0.rejected_code() == Some("OptionListInUse"@)
            && r->Err_0.context_value("optionListId"@) == Some(ContextValue::Id(option_list_id))
            && (r->Err_0.context_value("optionListName"@) matches Some(ContextValue::Text(n))
                && exists|i: int| 0 <= i < catalog->0.option_lists@.len()
                    && (#[trigger] catalog->0.option_lists@[i]).id == option_list_id && catalog->0.option_lists@[i].name == n),
        has_option_list(*catalog, option_list_id) && !in_use ==> r is Ok,
{
    match find_option_list(catalog, option_list_id) {
        None => Err(reject1("OptionListNotFound", "optionListId", ContextValue::Id(option_list_id))),
        Some(n) => {
            if in_use {
                proof {
                    reveal_strlit("optionListId");
                    reveal_strlit("optionListName");
                    assert("optionListId"@.len() != "optionListName"@.len());
                }
                return Err(reject2("OptionListInUse", "optionListId", ContextValue::Id(option_list_id), "optionListName",
                    ContextValue::Text(n)));
            }
            Ok(())
        }
    }
}

/// The offer exists in an existing catalog, or the stock update is refused with `OfferNotFound`.
pub fn require_offer(offer_id: u128, catalog: &Option<CatalogState>) -> (r: Result<(), DomainError>)
    ensures
        (catalog matches Some(c) && c.offer_ids@.contains(offer_id)) ==> r is Ok,
        !(catalog matches Some(c) && c.offer_ids@.contains(offer_id)) ==> r is Err
            && r->Err_0.rejected_code() == Some("OfferNotFound"@)
            && r->Err_0.context_value("offerId"@) == Some(ContextValue::Id(offer_id)),
{
    let found = match catalog {
        Some(c) => holds_id(&c.offer_ids, offer_id),
        None => false,
    };
    if !found {
        return Err(reject1("OfferNotFound", "offerId", ContextValue::Id(offer_id)));
    }
    Ok(())
}

/// A product of an import: its reference and its offers' references.
#[derive(Debug, Clone, PartialEq, Eq)]
pub struct ImportedProduct {
    pub external_ref: Option<String>,
    pub offer_refs: Vec<Option<String>>,
}

/// Whether every reference in `refs` is present.
pub open spec fn all_present(refs: Seq<Option<String>>) -> bool {
    forall|i: int| 0 <= i < refs.len() ==> (#[trigger] refs[i]) is Some
}

fn every_present(refs: &Vec<Option<String>>) -> (b: bool)
    ensures
        b == all_present(refs@),
{
    let mut i: usize = 0;
    while i < refs.len()
        invariant
            i <= refs@.len(),
            forall|j: int| 0 <= j < i ==> (#[trigger] refs@[j]) is Some,
        decreases refs.len() - i,
    {
        if refs[i].is_none() {
            return false;
        }
        i += 1;
    }
    true
}

/// Every entity of an import carries its reference (the idempotency key): categories, products and
/// their offers, option lists and their options.
pub open spec fn import_complete(category_refs: Seq<Option<String>>, products: Seq<ImportedProduct>,
    option_lists: Seq<OptionListInput>) -> bool
{
    &&& all_present(category_refs)
    &&& forall|i: int| 0 <= i < products.len() ==> (#[trigger] products[i]).external_ref is Some
            && all_present(products[i].offer_refs@)
    &&& forall|i: int| 0 <= i < option_lists.len() ==> (#[trigger] option_lists[i]).external_ref is Some
            && all_present(option_lists[i].option_refs@)
}

/// An import is refused with `MissingRef` unless every entity carries its reference.
pub fn import_catalog(category_refs: &Vec<Option<String>>, products: &Vec<ImportedProduct>,
    option_lists: &Vec<OptionListInput>) -> (r: Result<(), DomainError>)
    ensures
        import_complete(category_refs@, products@, option_lists@) ==> r is Ok,
        !import_complete(category_refs@, products@, option_lists@) ==> r is Err
            && r->Err_0.rejected_code() == Some("MissingRef"@),
{
    let mut ok = every_present(category_refs);
    let mut i: usize = 0;
    while i < products.len()
        invariant
            i <= products@.len(),
            ok == (all_present(category_refs@) && forall|j: int| 0 <= j < i ==> (#[trigger] products@[j]).external_ref is Some
                && all_present(products@[j].offer_refs@)),
        decreases products.len() - i,
    {
        let p = &products[i];
        let complete = p.external_ref.is_some() && every_present(&p.offer_refs);
        ok = ok && complete;
        i += 1;
    }
    let mut k: usize = 0;
    while k < option_lists.len()
        invariant
            k <= option_lists@.len(),
            ok == (all_present(category_refs@) && (forall|j: int| 0 <= j < products@.len() ==> (#[trigger] products@[j]).external_ref is Some
                && all_present(products@[j].offer_refs@))
                && forall|j: int| 0 <= j < k ==> (#[trigger] option_lists@[j]).external_ref is Some
                && all_present(option_lists@[j].option_refs@)),
        decreases option_lists.len() - k,
    {
        let l = &option_lists[k];
        let complete = l.external_ref.is_some() && every_present(&l.option_refs);
        ok = ok && complete;
        k += 1;
    }
    if !ok {
        return Err(reject("MissingRef", Vec::new()));
    }
    Ok(())
}

/// Whether the requested catalog route needs checking: `false` when it already is the catalog's
/// current one (nothing is appended, nothing is read).
pub fn catalog_slug_changes(current: &Option<String>, requested: &String) -> (b: bool)
    ensures
        b == !(current matches Some(c) && c@ == requested@),
{
    match current {
        Some(c) => !(*c == *requested),
        None => true,
    }
}

/// A route used by another catalog of the same restaurant is `CatalogSlugAlreadyTaken`; `taken` is
/// the read model's answer.
pub fn configure_catalog_slug(catalog_id: u128, slug: &String, taken: bool) -> (r: Result<(), DomainError>)
    ensures
        taken ==> r is Err && r->Err_0.rejected_code() == Some("CatalogSlugAlreadyTaken"@)
            && r->Err_0.context_value("catalogId"@) == Some(ContextValue::Id(catalog_id))
            && has_text(r->Err_0, "slug"@, slug@),
        !taken ==> r is Ok,
{
    if taken {
        proof {
            reveal_strlit("catalogId");
            reveal_strlit("slug");
            assert("catalogId"@.len() != "slug"@.len());
        }
        return Err(reject2("CatalogSlugAlreadyTaken", "catalogId", ContextValue::Id(catalog_id), "slug",
            ContextValue::Text(slug.clone())));
    }
    Ok(())
}

} // verus!
