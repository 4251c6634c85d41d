//! Prospecting a restaurant listing without spamming it: at most three contacts in all, at least
//! seven days apart. The first contact is the prospect's birth; marking it cold or recording a reply
//! needs a contact history. Instants are Unix milliseconds.

use vstd::prelude::*;
use crate::errors::{reject1, ContextValue, DomainError};
use crate::outside::now_unix_millis;

verus! {

/// The most contacts a prospect receives.
pub const MAX_PROSPECT_CONTACTS: u32 = 3;

/// The least time between two contacts: seven days, in milliseconds.
pub const RECONTACT_DELAY_MILLIS: i64 = 604_800_000;

/// The last contact is less than the delay before `now`.
pub open spec fn contacted_too_recently(last_contacted_at: Option<i64>, now: i64) -> bool {
    last_contacted_at matches Some(last) && now - last < RECONTACT_DELAY_MILLIS
}

/// What a contact attempt answers at `now`, given the contacts already made and the last contact
/// the prospection read model holds (a prospect not yet projected has none).
pub open spec fn contact_outcome(restaurant_id: u128, contacts: u32, last_contacted_at: Option<i64>, now: i64,
    r: Result<(), DomainError>) -> bool
{
    if contacts >= MAX_PROSPECT_CONTACTS {
        r is Err && r->Err_0.rejected_code() == Some("ProspectContactLimitReached"@)
            && r->Err_0.context_value("restaurantId"@) == Some(ContextValue::Id(restaurant_id))
    } else if contacted_too_recently(last_contacted_at, now) {
        r is Err && r->Err_0.rejected_code() == Some("ProspectContactedTooRecently"@)
            && r->Err_0.context_value("restaurantId"@) == Some(ContextValue::Id(restaurant_id))
    } else {
        r is Ok
    }
}

/// The anti-spam guards of a contact at `now` (see `contact_outcome`).
pub fn prospect_contact_at(restaurant_id: u128, contacts: u32, last_contacted_at: Option<i64>, now: i64)
    -> (r: Result<(), DomainError>)
    ensures
        contact_outcome(restaurant_id, contacts, last_contacted_at, now, r),
{
    if contacts >= MAX_PROSPECT_CONTACTS {
        return Err(reject1("ProspectContactLimitReached", "restaurantId", ContextValue::Id(restaurant_id)));
    }
    if let Some(last) = last_contacted_at {
        let elapsed: i128 = (now as i128) - (last as i128);
        if elapsed < (RECONTACT_DELAY_MILLIS as i128) {
            return Err(reject1("ProspectContactedTooRecently", "restaurantId", ContextValue::Id(restaurant_id)));
        }
    }
    Ok(())
}

/// The anti-spam guards of a contact now: the clock is read once and the guards run at that instant.
/// Whatever the clock says, a prospect at its limit is refused and a never-contacted one with room
/// left is accepted.
pub fn record_prospect_contact(restaurant_id: u128, contacts: u32, last_contacted_at: Option<i64>) -> (r: Result<(), DomainError>)
    ensures
        exists|now: i64| contact_outcome(restaurant_id, contacts, last_contacted_at, now, r),
        contacts >= MAX_PROSPECT_CONTACTS ==> r is Err && r->Err_0.rejected_code() == Some("ProspectContactLimitReached"@),
        contacts < MAX_PROSPECT_CONTACTS && last_contacted_at is None ==> r is Ok,
{
    let now = now_unix_millis();
    let r = prospect_contact_at(restaurant_id, contacts, last_contacted_at, now);
    assert(contact_outcome(restaurant_id, contacts, last_contacted_at, now, r));
    r
}

/// The prospect has a contact history, or the command is refused with `ProspectNotFound`.
pub fn require_prospect<S>(restaurant_id: u128, prospect: Option<S>) -> (r: Result<S, DomainError>)
    ensures
        prospect matches Some(s) ==> r == Ok::<S, DomainError>(s),
        prospect is None ==> r is Err && r->Err_0.rejected_code() == Some("ProspectNotFound"@)
            && r->Err_0.context_value("restaurantId"@) == Some(ContextValue::Id(restaurant_id)),
{
    match prospect {
        Some(s) => Ok(s),
        None => Err(reject1("ProspectNotFound", "restaurantId", ContextValue::Id(restaurant_id))),
    }
}

/// An accepted contact respects both anti-spam rules: fewer than three contacts were made before
/// it, and it comes at least seven days after the last one.
pub proof fn law_accepted_contact_is_spaced_and_capped(restaurant_id: u128, contacts: u32,
    last_contacted_at: Option<i64>, now: i64, r: Result<(), DomainError>)
    requires
        contact_outcome(restaurant_id, contacts, last_contacted_at, now, r),
        r is Ok,
    ensures
        contacts < MAX_PROSPECT_CONTACTS,
        last_contacted_at matches Some(last) ==> now - last >= RECONTACT_DELAY_MILLIS,
{
}

} // verus!
