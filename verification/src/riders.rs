//! Riders and delivery-partner registrations. Both register once per client-generated id: a second
//! registration, or losing the race for the first write, is refused rather than absorbed as a replay.
//! A rider starts offline; a partner registration is approved only while pending.

use vstd::prelude::*;
use crate::errors::{has_text, reject, reject1, reject2, ContextValue, DomainError};
use crate::ports::{invariant_starts_with, is_version_conflict, VERSION_CONFLICT_PREFIX};
use crate::text::same_text;

verus! {

/// How a once-only registration ends once its first write answered: appended is done; losing the
/// optimistic-concurrency race is the `already` refusal; any other failure is handed back.
pub fn registration_outcome(appended: Result<i64, DomainError>, already: DomainError) -> (r: Result<(), DomainError>)
    ensures
        appended is Ok ==> r is Ok,
        appended is Err && invariant_starts_with(appended->Err_0, VERSION_CONFLICT_PREFIX@)
            ==> r == Err::<(), DomainError>(already),
        appended is Err && !invariant_starts_with(appended->Err_0, VERSION_CONFLICT_PREFIX@)
            ==> r == Err::<(), DomainError>(appended->Err_0),
{
    match appended {
        Ok(_) => Ok(()),
        Err(e) => {
            if is_version_conflict(&e) {
                Err(already)
            } else {
                Err(e)
            }
        }
    }
}

/// A rider's availability status.
#[derive(Debug, Clone, Copy, PartialEq, Eq, Structural)]
pub enum RiderStatus {
    Offline,
    Available,
}

/// The birth of a rider.
#[derive(Debug, Clone, PartialEq, Eq)]
pub struct RiderRegistered {
    pub rider_id: u128,
    pub auth_ref: Option<String>,
    pub display_name: String,
    pub phone: Option<String>,
    pub status: RiderStatus,
}

/// The `RiderAlreadyRegistered` refusal.
pub fn rider_already_registered(rider_id: u128) -> (e: DomainError)
    ensures
        e.rejected_code() == Some("RiderAlreadyRegistered"@),
        e.context_value("riderId"@) == Some(ContextValue::Id(rider_id)),
{
    reject1("RiderAlreadyRegistered", "riderId", ContextValue::Id(rider_id))
}

/// A rider registers once (an existing rider is `RiderAlreadyRegistered`), and starts offline: it
/// goes available explicitly.
pub fn register_rider(rider_id: u128, auth_ref: Option<String>, display_name: String, phone: Option<String>,
    already_registered: bool) -> (r: Result<RiderRegistered, DomainError>)
    ensures
        already_registered ==> r is Err && r->Err_0.rejected_code() == Some("RiderAlreadyRegistered"@)
            && r->Err_0.context_value("riderId"@) == Some(ContextValue::Id(rider_id)),
        !already_registered ==> r == Ok::<RiderRegistered, DomainError>(RiderRegistered {
            rider_id,
            auth_ref,
            display_name,
            phone,
            status: RiderStatus::Offline,
        }),
{
    if already_registered {
        return Err(rider_already_registered(rider_id));
    }
    Ok(RiderRegistered { rider_id, auth_ref, display_name, phone, status: RiderStatus::Offline })
}

/// The rider exists, or the command is refused with `RiderNotFound`.
pub fn require_rider<S>(rider_id: u128, rider: Option<S>) -> (r: Result<S, DomainError>)
    ensures
        rider matches Some(s) ==> r == Ok::<S, DomainError>(s),
        rider is None ==> r is Err && r->Err_0.rejected_code() == Some("RiderNotFound"@)
            && r->Err_0.context_value("riderId"@) == Some(ContextValue::Id(rider_id)),
{
    match rider {
        Some(s) => Ok(s),
        None => Err(reject1("RiderNotFound", "riderId", ContextValue::Id(rider_id))),
    }
}

/// A rider-profile update carries a display name or a phone (else `NoEditableFieldProvided`).
pub fn update_rider_info(display_name: &Option<String>, phone: &Option<String>) -> (r: Result<(), DomainError>)
    ensures
        (display_name is Some || phone is Some) ==> r is Ok,
        (display_name is None && phone is None) ==> r is Err
            && r->Err_0.rejected_code() == Some("NoEditableFieldProvided"@),
{
    if display_name.is_none() && phone.is_none() {
        return Err(reject("NoEditableFieldProvided", Vec::new()));
    }
    Ok(())
}

/// The `DeliveryPartnerAvailabilityAlreadyRequested` refusal.
pub fn partner_availability_already_requested(registration_id: u128) -> (e: DomainError)
    ensures
        e.rejected_code() == Some("DeliveryPartnerAvailabilityAlreadyRequested"@),
        e.context_value("registrationId"@) == Some(ContextValue::Id(registration_id)),
{
    reject1("DeliveryPartnerAvailabilityAlreadyRequested", "registrationId", ContextValue::Id(registration_id))
}

/// A partner self-registers once per registration id (an existing one is
/// `DeliveryPartnerAvailabilityAlreadyRequested`).
pub fn register_delivery_partner_availability(registration_id: u128, already_requested: bool) -> (r: Result<(), DomainError>)
    ensures
        already_requested ==> r is Err
            && r->Err_0.rejected_code() == Some("DeliveryPartnerAvailabilityAlreadyRequested"@)
            && r->Err_0.context_value("registrationId"@) == Some(ContextValue::Id(registration_id)),
        !already_requested ==> r is Ok,
{
    if already_requested {
        return Err(partner_availability_already_requested(registration_id));
    }
    Ok(())
}

/// The registration exists, or the command is refused with `DeliveryPartnerAvailabilityNotFound`.
pub fn require_partner_registration<S>(registration_id: u128, registration: Option<S>) -> (r: Result<S, DomainError>)
    ensures
        registration matches Some(s) ==> r == Ok::<S, DomainError>(s),
        registration is None ==> r is Err
            && r->Err_0.rejected_code() == Some("DeliveryPartnerAvailabilityNotFound"@)
            && r->Err_0.context_value("registrationId"@) == Some(ContextValue::Id(registration_id)),
{
    match registration {
        Some(s) => Ok(s),
        None => Err(reject1("DeliveryPartnerAvailabilityNotFound", "registrationId", ContextValue::Id(registration_id))),
    }
}

/// A registration is approved only while pending; `status` is its wire name (any other status is
/// `DeliveryPartnerAvailabilityNotPending`, naming it).
pub fn approve_delivery_partner_availability(registration_id: u128, status: &String) -> (r: Result<(), DomainError>)
    ensures
        status@ == "PENDING"@ ==> r is Ok,
        status@ != "PENDING"@ ==> r is Err
            && r->Err_0.rejected_code() == Some("DeliveryPartnerAvailabilityNotPending"@)
            && r->Err_0.context_value("registrationId"@) == Some(ContextValue::Id(registration_id))
            && has_text(r->Err_0, "currentStatus"@, status@),
{
    if same_text(status, "PENDING") {
        return Ok(());
    }
    proof {
        reveal_strlit("registrationId");
        reveal_strlit("currentStatus");
        assert("registrationId"@.len() != "currentStatus"@.len());
    }
    Err(reject2("DeliveryPartnerAvailabilityNotPending", "registrationId", ContextValue::Id(registration_id),
        "currentStatus", ContextValue::Text(status.clone())))
}

} // verus!
