//! The restaurant and restaurant-account command decisions: existence, the shape of an account's
//! currency, edits that must carry something, the storefront address (slug) whose uniqueness a
//! reservation arbitrates, activation and deactivation as ensure-commands, the live acceptance mode,
//! the listing claims that need a verified ownership proof, and what a registry report does to a
//! restaurant already held.

use vstd::prelude::*;
use crate::checkout::{OrderAcceptanceMode, RestaurantStatus};
use crate::commands::{iso4217_shaped, RecordOutcome};
use crate::delivery_dispatch::Address;
use crate::errors::{has_text, reject, reject1, reject2, reject3, text_value, ContextValue, DomainError};

verus! {

/// What the restaurant's decisions read of it, folded from its own stream.
#[derive(Debug, Clone, PartialEq, Eq)]
pub struct RestaurantState {
    pub display_name: String,
    pub status: RestaurantStatus,
    pub order_acceptance: OrderAcceptanceMode,
    /// The storefront address, once configured.
    pub slug: Option<String>,
    pub listing_claimed: bool,
    pub gbp_order_url: Option<String>,
}

/// The restaurant exists, or the command is refused with `RestaurantNotFound`.
pub fn require_restaurant<S>(restaurant_id: u128, restaurant: Option<S>) -> (r: Result<S, DomainError>)
    ensures
        restaurant matches Some(s) ==> r == Ok::<S, DomainError>(s),
        restaurant is None ==> r is Err && r->Err_0.rejected_code() == Some("RestaurantNotFound"@)
            && r->Err_0.context_value("restaurantId"@) == Some(ContextValue::Id(restaurant_id)),
{
    match restaurant {
        Some(s) => Ok(s),
        None => Err(reject1("RestaurantNotFound", "restaurantId", ContextValue::Id(restaurant_id))),
    }
}

/// The account exists (a deleted account no longer does), or the command is refused with
/// `RestaurantAccountNotFound`.
pub fn require_restaurant_account<S>(account_id: u128, account: Option<S>) -> (r: Result<S, DomainError>)
    ensures
        account matches Some(s) ==> r == Ok::<S, DomainError>(s),
        account is None ==> r is Err && r->Err_0.rejected_code() == Some("RestaurantAccountNotFound"@)
            && r->Err_0.context_value("restaurantAccountId"@) == Some(ContextValue::Id(account_id)),
{
    match account {
        Some(s) => Ok(s),
        None => Err(reject1("RestaurantAccountNotFound", "restaurantAccountId", ContextValue::Id(account_id))),
    }
}

/// An account registers with an ISO 4217-shaped default currency (else `InvalidCurrency`, naming it).
pub fn register_restaurant_account(default_currency: &String) -> (r: Result<(), DomainError>)
    ensures
        iso4217_shaped(default_currency@) ==> r is Ok,
        !iso4217_shaped(default_currency@) ==> r is Err && r->Err_0.rejected_code() == Some("InvalidCurrency"@)
            && has_text(r->Err_0, "currency"@, default_currency@),
{
    if !crate::commands::is_valid_iso4217(default_currency.as_str()) {
        return Err(reject1("InvalidCurrency", "currency", ContextValue::Text(default_currency.clone())));
    }
    Ok(())
}

/// An account update carries a legal name, a contact, a default tax rate or a timezone (else
/// `NoEditableFieldProvided`).
pub fn update_restaurant_account(legal_name: bool, contact: bool, default_tax_rate: bool, timezone: bool)
    -> (r: Result<(), DomainError>)
    ensures
        (legal_name || contact || default_tax_rate || timezone) ==> r is Ok,
        !(legal_name || contact || default_tax_rate || timezone) ==> r is Err
            && r->Err_0.rejected_code() == Some("NoEditableFieldProvided"@),
{
    if !(legal_name || contact || default_tax_rate || timezone) {
        return Err(reject("NoEditableFieldProvided", Vec::new()));
    }
    Ok(())
}

/// A location registers under an account only if that account's stream folds to an account (else
/// `RestaurantAccountNotFound`); its listing status defaults to `NON_PARTNER` when omitted. The
/// answer is the listing status it registers with.
pub fn register_restaurant(account_id: Option<u128>, account_exists: bool, listing_status: Option<String>)
    -> (r: Result<String, DomainError>)
    ensures
        (account_id is Some && !account_exists) ==> r is Err
            && r->Err_0.rejected_code() == Some("RestaurantAccountNotFound"@)
            && r->Err_0.context_value("restaurantAccountId"@) == Some(ContextValue::Id(account_id->0)),
        !(account_id is Some && !account_exists) ==> r is Ok && r->Ok_0@ == match listing_status {
            Some(s) => s@,
            None => "NON_PARTNER"@,
        },
{
    if let Some(a) = account_id {
        if !account_exists {
            return Err(reject1("RestaurantAccountNotFound", "restaurantAccountId", ContextValue::Id(a)));
        }
    }
    match listing_status {
        Some(s) => Ok(s),
        None => Ok(String::from_str("NON_PARTNER")),
    }
}

/// The `UpdateRestaurant` command's editable fields (the description alone is not an edit).
#[derive(Debug, Clone, PartialEq, Eq)]
pub struct RestaurantUpdate {
    pub restaurant_id: u128,
    pub display_name: Option<String>,
    pub description: Option<String>,
    pub contact: Option<String>,
    pub website: Option<String>,
    pub tags: Vec<String>,
    /// The margin rate, as its decimal text.
    pub margin_rate: Option<String>,
    pub cuisine_category: Option<String>,
    pub uber_prices_opt_in: Option<bool>,
    pub address: Option<Address>,
    pub location: Option<String>,
    pub timezone: Option<String>,
    pub preparation_time_minutes: Option<i32>,
    pub opening_hours: Vec<String>,
}

/// The update carries at least one editable field.
pub open spec fn has_editable_field(u: RestaurantUpdate) -> bool {
    u.display_name is Some || u.contact is Some || u.website is Some || u.tags@.len() > 0
        || u.margin_rate is Some || u.cuisine_category is Some || u.uber_prices_opt_in is Some
        || u.address is Some || u.location is Some || u.timezone is Some
        || u.preparation_time_minutes is Some || u.opening_hours@.len() > 0
}

/// A restaurant update must carry an editable field (`NoEditableFieldProvided`); it is then recorded
/// as given.
pub fn update_restaurant(u: RestaurantUpdate) -> (r: Result<RestaurantUpdate, DomainError>)
    ensures
        has_editable_field(u) ==> r == Ok::<RestaurantUpdate, DomainError>(u),
        !has_editable_field(u) ==> r is Err && r->Err_0.rejected_code() == Some("NoEditableFieldProvided"@),
{
    let editable = u.display_name.is_some() || u.contact.is_some() || u.website.is_some() || u.tags.len() > 0
        || u.margin_rate.is_some() || u.cuisine_category.is_some() || u.uber_prices_opt_in.is_some()
        || u.address.is_some() || u.location.is_some() || u.timezone.is_some()
        || u.preparation_time_minutes.is_some() || u.opening_hours.len() > 0;
    if !editable {
        return Err(reject("NoEditableFieldProvided", Vec::new()));
    }
    Ok(u)
}

/// Any one editable field is enough: an update carrying a display name, contact, website, tags,
/// margin rate, cuisine category, Uber price opt-in, address, location, timezone, preparation time or
/// non-empty opening hours is accepted and recorded exactly as given; `NoEditableFieldProvided` only
/// when every one of them is absent.
pub proof fn law_any_editable_field_is_enough(u: RestaurantUpdate, r: Result<RestaurantUpdate, DomainError>)
    requires
        has_editable_field(u) ==> r == Ok::<RestaurantUpdate, DomainError>(u),
        !has_editable_field(u) ==> r is Err && r->Err_0.rejected_code() == Some("NoEditableFieldProvided"@),
    ensures
        (u.display_name is Some || u.contact is Some || u.website is Some || u.tags@.len() > 0
            || u.margin_rate is Some || u.cuisine_category is Some || u.uber_prices_opt_in is Some
            || u.address is Some || u.location is Some || u.timezone is Some
            || u.preparation_time_minutes is Some) ==> r == Ok::<RestaurantUpdate, DomainError>(u),
        u.opening_hours@.len() > 0 ==> r == Ok::<RestaurantUpdate, DomainError>(u),
        r is Err ==> u.display_name is None && u.contact is None && u.website is None && u.tags@.len() == 0
            && u.margin_rate is None && u.cuisine_category is None && u.uber_prices_opt_in is None
            && u.address is None && u.location is None && u.timezone is None
            && u.preparation_time_minutes is None && u.opening_hours@.len() == 0,
{
}

/// Whether the requested storefront address must be reserved: `false` when it already is the
/// restaurant's current one (nothing happens: no fact, no error, no reservation).
pub fn slug_needs_reservation(current: &Option<String>, requested: &String) -> (b: bool)
    ensures
        b == !(current matches Some(c) && c@ == requested@),
{
    match current {
        Some(c) => !(*c == *requested),
        None => true,
    }
}

/// The fact a slug configuration appends once the address is reserved.
#[derive(Debug, Clone, PartialEq, Eq)]
pub enum SlugChange {
    /// The first address of the restaurant.
    Configured { restaurant_id: u128, slug: String },
    /// A rename: the previous address is carried (and released, never reused) so it can redirect.
    Reconfigured { restaurant_id: u128, slug: String, previous_slug: String },
}

/// After the reservation: an address held by another restaurant is `SlugAlreadyTaken`; otherwise a
/// first address is configured, and a rename carries the previous one.
pub fn slug_after_reservation(restaurant_id: u128, slug: String, current: Option<String>, reserved: bool)
    -> (r: Result<SlugChange, DomainError>)
    ensures
        !reserved ==> r is Err && r->Err_0.rejected_code() == Some("SlugAlreadyTaken"@)
            && has_text(r->Err_0, "slug"@, slug@),
        reserved && current is None ==> r == Ok::<SlugChange, DomainError>(SlugChange::Configured { restaurant_id, slug }),
        reserved && current is Some ==> r == Ok::<SlugChange, DomainError>(SlugChange::Reconfigured {
            restaurant_id,
            slug,
            previous_slug: current->0,
        }),
{
    if !reserved {
        return Err(reject1("SlugAlreadyTaken", "slug", ContextValue::Text(slug)));
    }
    match current {
        Some(previous) => Ok(SlugChange::Reconfigured { restaurant_id, slug, previous_slug: previous }),
        None => Ok(SlugChange::Configured { restaurant_id, slug }),
    }
}

/// Activation ensures the active state: a restaurant with no storefront address is refused
/// (`SlugNotConfigured`) so it never goes live unreachable; an already active one appends nothing
/// (`false`); otherwise the activation is appended (`true`).
pub fn activate_restaurant(restaurant_id: u128, restaurant: &RestaurantState) -> (r: Result<bool, DomainError>)
    ensures
        restaurant.slug is None ==> r is Err && r->Err_0.rejected_code() == Some("SlugNotConfigured"@)
            && r->Err_0.context_value("restaurantId"@) == Some(ContextValue::Id(restaurant_id)),
        restaurant.slug is Some ==> r == Ok::<bool, DomainError>(restaurant.status != RestaurantStatus::Active),
{
    if restaurant.slug.is_none() {
        return Err(reject1("SlugNotConfigured", "restaurantId", ContextValue::Id(restaurant_id)));
    }
    Ok(restaurant.status != RestaurantStatus::Active)
}

/// Deactivation ensures the inactive state: whether a deactivation is appended.
pub fn deactivate_restaurant(restaurant: &RestaurantState) -> (b: bool)
    ensures
        b == (restaurant.status != RestaurantStatus::Inactive),
{
    restaurant.status != RestaurantStatus::Inactive
}

/// Only an active restaurant changes its live acceptance mode (`RestaurantNotActive`), and asking
/// for the current mode is refused (`AcceptanceModeUnchanged`, naming it).
pub fn change_order_acceptance_mode(restaurant_id: u128, restaurant: &RestaurantState, mode: OrderAcceptanceMode)
    -> (r: Result<(), DomainError>)
    ensures
        restaurant.status != RestaurantStatus::Active ==> r is Err
            && r->Err_0.rejected_code() == Some("RestaurantNotActive"@)
            && r->Err_0.context_value("restaurantId"@) == Some(ContextValue::Id(restaurant_id))
            && has_text(r->Err_0, "restaurantName"@, restaurant.display_name@),
        restaurant.status == RestaurantStatus::Active && restaurant.order_acceptance == mode ==> r is Err
            && r->Err_0.rejected_code() == Some("AcceptanceModeUnchanged"@)
            && r->Err_0.context_value("restaurantId"@) == Some(ContextValue::Id(restaurant_id))
            && has_text(r->Err_0, "mode"@, mode.wire_name()),
        restaurant.status == RestaurantStatus::Active && restaurant.order_acceptance != mode ==> r is Ok,
{
    proof {
        reveal_strlit("restaurantId");
        reveal_strlit("restaurantName");
        reveal_strlit("mode");
        assert("restaurantId"@.len() != "restaurantName"@.len());
        assert("restaurantId"@.len() != "mode"@.len());
        assert("restaurantName"@.len() != "mode"@.len());
    }
    if restaurant.status != RestaurantStatus::Active {
        return Err(reject2("RestaurantNotActive", "restaurantId", ContextValue::Id(restaurant_id), "restaurantName",
            ContextValue::Text(restaurant.display_name.clone())));
    }
    if restaurant.order_acceptance == mode {
        return Err(reject3("AcceptanceModeUnchanged", "restaurantId", ContextValue::Id(restaurant_id),
            "restaurantName", ContextValue::Text(restaurant.display_name.clone()), "mode", text_value(mode.as_str())));
    }
    Ok(())
}

/// A listing is claimed once (`ListingAlreadyClaimed`), and only with an ownership proof the
/// verifier accepted (`ListingOwnershipNotVerified`). `ownership_verified` is the verifier's answer,
/// asked only when the listing is unclaimed.
pub fn claim_restaurant_listing(restaurant_id: u128, listing_claimed: bool, ownership_verified: bool) -> (r: Result<(), DomainError>)
    ensures
        listing_claimed ==> r is Err && r->Err_0.rejected_code() == Some("ListingAlreadyClaimed"@)
            && r->Err_0.context_value("restaurantId"@) == Some(ContextValue::Id(restaurant_id)),
        !listing_claimed && !ownership_verified ==> r is Err
            && r->Err_0.rejected_code() == Some("ListingOwnershipNotVerified"@)
            && r->Err_0.context_value("restaurantId"@) == Some(ContextValue::Id(restaurant_id)),
        !listing_claimed && ownership_verified ==> r is Ok,
{
    if listing_claimed {
        return Err(reject1("ListingAlreadyClaimed", "restaurantId", ContextValue::Id(restaurant_id)));
    }
    if !ownership_verified {
        return Err(reject1("ListingOwnershipNotVerified", "restaurantId", ContextValue::Id(restaurant_id)));
    }
    Ok(())
}

/// An opt-out needs the same verified ownership proof as a claim (`ListingOwnershipNotVerified`).
pub fn opt_out_restaurant_listing(restaurant_id: u128, ownership_verified: bool) -> (r: Result<(), DomainError>)
    ensures
        !ownership_verified ==> r is Err && r->Err_0.rejected_code() == Some("ListingOwnershipNotVerified"@)
            && r->Err_0.context_value("restaurantId"@) == Some(ContextValue::Id(restaurant_id)),
        ownership_verified ==> r is Ok,
{
    if !ownership_verified {
        return Err(reject1("ListingOwnershipNotVerified", "restaurantId", ContextValue::Id(restaurant_id)));
    }
    Ok(())
}

/// Verifying the ordering link needs a configured link (`GbpOrderLinkNotConfigured`); the answer is
/// the link to probe.
pub fn verify_gbp_order_link(restaurant_id: u128, gbp_order_url: Option<String>) -> (r: Result<String, DomainError>)
    ensures
        gbp_order_url matches Some(u) ==> r == Ok::<String, DomainError>(u),
        gbp_order_url is None ==> r is Err && r->Err_0.rejected_code() == Some("GbpOrderLinkNotConfigured"@)
            && r->Err_0.context_value("restaurantId"@) == Some(ContextValue::Id(restaurant_id)),
{
    match gbp_order_url {
        Some(u) => Ok(u),
        None => Err(reject1("GbpOrderLinkNotConfigured", "restaurantId", ContextValue::Id(restaurant_id))),
    }
}

/// What a registry registration does to the restaurant's stream: a restaurant never registered is
/// recorded as reported; a registered one is updated with exactly the fields the report moves, or
/// left alone when nothing moved. `has_changes` is the restaurant aggregate's own comparison.
pub fn record_inbound_restaurant_registration(registered: bool, has_changes: bool) -> (r: RecordOutcome)
    ensures
        !registered ==> r == RecordOutcome::Recorded,
        registered && has_changes ==> r == RecordOutcome::Updated,
        registered && !has_changes ==> r == RecordOutcome::NoChange,
{
    if !registered {
        RecordOutcome::Recorded
    } else if has_changes {
        RecordOutcome::Updated
    } else {
        RecordOutcome::NoChange
    }
}

} // verus!
