//! The customer's command decisions: an email or a phone belongs to one customer, a favorite
//! restaurant exists, the info update carries its only editable field, and unfavoriting or removing
//! an address that is not there changes nothing.

use vstd::prelude::*;
use crate::errors::{has_text, reject, reject1, ContextValue, DomainError};

verus! {

/// What the customer's decisions read of it, folded from its stream.
#[derive(Debug, Clone, PartialEq, Eq)]
pub struct CustomerState {
    pub locale: Option<String>,
    pub favorites: Vec<u128>,
    pub addresses: Vec<u128>,
}

/// An email is free for `customer_id`: no customer owns it, or this one does (else
/// `EmailAlreadyInUse`, naming it). `owner` is the read model's owner of the email.
pub fn request_email_verification(owner: Option<u128>, customer_id: u128, email: &String) -> (r: Result<(), DomainError>)
    ensures
        (owner matches Some(o) && o != customer_id) ==> r is Err
            && r->Err_0.rejected_code() == Some("EmailAlreadyInUse"@) && has_text(r->Err_0, "email"@, email@),
        !(owner matches Some(o) && o != customer_id) ==> r is Ok,
{
    if let Some(o) = owner {
        if o != customer_id {
            return Err(reject1("EmailAlreadyInUse", "email", ContextValue::Text(email.clone())));
        }
    }
    Ok(())
}

/// A phone is free for `customer_id`: no customer owns it, or this one does (else
/// `PhoneAlreadyInUse`, naming it). `owner` is the read model's owner of the canonical phone.
pub fn require_phone_free(owner: Option<u128>, customer_id: u128, phone: &String) -> (r: Result<(), DomainError>)
    ensures
        (owner matches Some(o) && o != customer_id) ==> r is Err
            && r->Err_0.rejected_code() == Some("PhoneAlreadyInUse"@) && has_text(r->Err_0, "phone"@, phone@),
        !(owner matches Some(o) && o != customer_id) ==> r is Ok,
{
    if let Some(o) = owner {
        if o != customer_id {
            return Err(reject1("PhoneAlreadyInUse", "phone", ContextValue::Text(phone.clone())));
        }
    }
    Ok(())
}

/// The locale an authenticated send is localized by: the customer's stored one, if any.
pub fn stored_locale(customer: Option<CustomerState>) -> (l: Option<String>)
    ensures
        l == match customer { Some(c) => c.locale, None => None },
{
    match customer {
        Some(c) => c.locale,
        None => None,
    }
}

/// The customer-info update carries its only editable field, the display name (else
/// `NoEditableFieldProvided`).
pub fn update_customer_info(display_name: &Option<String>) -> (r: Result<(), DomainError>)
    ensures
        display_name is Some ==> r is Ok,
        display_name is None ==> r is Err && r->Err_0.rejected_code() == Some("NoEditableFieldProvided"@),
{
    if display_name.is_none() {
        return Err(reject("NoEditableFieldProvided", Vec::new()));
    }
    Ok(())
}

/// A favorite restaurant exists in the read model (else `RestaurantNotFound`).
pub fn mark_restaurant_as_favorite(restaurant_id: u128, restaurant_known: bool) -> (r: Result<(), DomainError>)
    ensures
        restaurant_known ==> r is Ok,
        !restaurant_known ==> r is Err && r->Err_0.rejected_code() == Some("RestaurantNotFound"@)
            && r->Err_0.context_value("restaurantId"@) == Some(ContextValue::Id(restaurant_id)),
{
    if !restaurant_known {
        return Err(reject1("RestaurantNotFound", "restaurantId", ContextValue::Id(restaurant_id)));
    }
    Ok(())
}

/// Unfavoriting ensures the restaurant is not a favorite: whether an unfavorite is appended (only
/// for a current favorite).
pub fn unmark_restaurant_as_favorite(customer: &Option<CustomerState>, restaurant_id: u128) -> (b: bool)
    ensures
        b == (customer matches Some(c) && c.favorites@.contains(restaurant_id)),
{
    match customer {
        Some(c) => crate::cart::ids_contain(&c.favorites, restaurant_id),
        None => false,
    }
}

/// Removing an address ensures it is gone: whether a removal is appended (only for a saved address).
pub fn remove_customer_address(customer: &Option<CustomerState>, address_id: u128) -> (b: bool)
    ensures
        b == (customer matches Some(c) && c.addresses@.contains(address_id)),
{
    match customer {
        Some(c) => crate::cart::ids_contain(&c.addresses, address_id),
        None => false,
    }
}

} // verus!
