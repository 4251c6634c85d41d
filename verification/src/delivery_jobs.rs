//! The delivery job's command decisions. A job is taken by one rider while it is pending; the rider
//! it is assigned to picks it up and completes it; it can be cancelled before completion (once), an
//! issue can be reported and resolved on any job not yet delivered, and a partner assignment can be
//! undone. What the job's declared life cycle allows is the domain's answer, taken as an argument.

use vstd::prelude::*;
use crate::delivery_dispatch::{job_not_found, DeliveryStatus};
use crate::errors::{has_text, reject1, reject3, reject4, text_value, ContextValue, DomainError};
use crate::outside::{uuid_text, uuid_to_text};

verus! {

/// What the job's decisions read of it, folded from its stream.
#[derive(Debug, Clone, PartialEq, Eq)]
pub struct DeliveryJobState {
    /// The order the job delivers, from its birth fact.
    pub order_id: u128,
    pub status: DeliveryStatus,
    /// Whether a rider or a partner has taken the job.
    pub assigned: bool,
    pub rider_id: Option<u128>,
    pub partner_ref: Option<String>,
    /// Whether an issue was reported and not yet resolved.
    pub open_issue: bool,
}

/// A fact a delivery-job command appends.
#[derive(Debug, Clone, PartialEq, Eq)]
pub enum DeliveryJobEvent {
    AcceptedByRider { delivery_job_id: u128, order_id: u128, rider_id: u128 },
    DeclinedByRider { delivery_job_id: u128, rider_id: u128, reason: Option<String> },
    PickedUp { delivery_job_id: u128, order_id: u128, rider_id: u128 },
    Completed { delivery_job_id: u128, order_id: u128 },
    Cancelled { delivery_job_id: u128, reason: Option<String> },
    IssueReported { delivery_job_id: u128, rider_id: Option<u128>, issue: String },
    IssueResolved { delivery_job_id: u128, resolution: String },
    UnassignedFromPartner { delivery_job_id: u128, reason: Option<String> },
}

/// The job exists, or the command is refused with `DeliveryJobNotFound`.
pub fn require_delivery_job(delivery_job_id: u128, job: Option<DeliveryJobState>) -> (r: Result<DeliveryJobState, DomainError>)
    ensures
        job matches Some(j) ==> r == Ok::<DeliveryJobState, DomainError>(j),
        job is None ==> r is Err && r->Err_0.rejected_code() == Some("DeliveryJobNotFound"@)
            && r->Err_0.context_value("deliveryJobId"@) == Some(ContextValue::Id(delivery_job_id)),
{
    match job {
        Some(j) => Ok(j),
        None => Err(job_not_found(delivery_job_id)),
    }
}

/// The `InvalidDeliveryStatus` rejection of job `id`, currently `current`, where the transition
/// needed `expected`.
pub open spec fn is_invalid_status(e: DomainError, id: u128, current: DeliveryStatus, expected: DeliveryStatus) -> bool {
    &&& e.rejected_code() == Some("InvalidDeliveryStatus"@)
    &&& e.context_value("deliveryJobId"@) == Some(ContextValue::Id(id))
    &&& has_text(e, "currentStatus"@, current.wire_name())
    &&& has_text(e, "expectedStatus"@, expected.wire_name())
}

/// The `InvalidDeliveryStatus` rejection (see `is_invalid_status`).
pub fn invalid_delivery_status(id: u128, current: DeliveryStatus, expected: DeliveryStatus) -> (e: DomainError)
    ensures
        is_invalid_status(e, id, current, expected),
{
    proof {
        reveal_strlit("deliveryJobId");
        reveal_strlit("currentStatus");
        reveal_strlit("expectedStatus");
        assert("deliveryJobId"@[0] != "currentStatus"@[0]);
        assert("deliveryJobId"@.len() != "expectedStatus"@.len());
        assert("currentStatus"@.len() != "expectedStatus"@.len());
    }
    reject3("InvalidDeliveryStatus", "deliveryJobId", ContextValue::Id(id), "currentStatus",
        text_value(current.as_str()), "expectedStatus", text_value(expected.as_str()))
}

/// The `InvalidDeliveryStatus` rejection with a diagnostic `detail` beyond the catalogued context.
fn invalid_status_with_detail(id: u128, current: DeliveryStatus, expected: DeliveryStatus, detail: String)
    -> (e: DomainError)
    ensures
        is_invalid_status(e, id, current, expected),
        e.context_value("detail"@) == Some(ContextValue::Text(detail)),
{
    proof {
        reveal_strlit("deliveryJobId");
        reveal_strlit("currentStatus");
        reveal_strlit("expectedStatus");
        reveal_strlit("detail");
        assert("deliveryJobId"@[0] != "currentStatus"@[0]);
        assert("deliveryJobId"@.len() != "expectedStatus"@.len());
        assert("deliveryJobId"@.len() != "detail"@.len());
        assert("currentStatus"@.len() != "expectedStatus"@.len());
        assert("currentStatus"@.len() != "detail"@.len());
        assert("expectedStatus"@.len() != "detail"@.len());
    }
    reject4("InvalidDeliveryStatus", "deliveryJobId", ContextValue::Id(id), "currentStatus",
        text_value(current.as_str()), "expectedStatus", text_value(expected.as_str()), "detail",
        ContextValue::Text(detail))
}

/// The diagnostic of a pickup or completion by a rider the job is not assigned to.
pub open spec fn not_assigned_detail(rider_id: u128) -> Seq<char> {
    "job is not assigned to rider "@ + uuid_text(rider_id)
}

fn not_assigned_to(rider_id: u128) -> (s: String)
    ensures
        s@ == not_assigned_detail(rider_id),
{
    let mut s = String::from_str("job is not assigned to rider ");
    let id = uuid_to_text(rider_id);
    s.append(id.as_str());
    s
}

/// The job is already taken: assigned, picked up or out for delivery, with a rider or partner on it.
pub open spec fn taken(job: DeliveryJobState) -> bool {
    (job.status == DeliveryStatus::Assigned || job.status == DeliveryStatus::PickedUp
        || job.status == DeliveryStatus::OutForDelivery) && job.assigned
}

/// The guard shared by accepting and declining: only a pending job; one already taken is
/// `DeliveryAlreadyAssigned`; any other status is `InvalidDeliveryStatus` (pending expected).
pub open spec fn pending_guard(delivery_job_id: u128, job: DeliveryJobState, r: Result<(), DomainError>) -> bool {
    if job.status == DeliveryStatus::Pending {
        r is Ok
    } else if taken(job) {
        r is Err && r->Err_0.rejected_code() == Some("DeliveryAlreadyAssigned"@)
            && r->Err_0.context_value("deliveryJobId"@) == Some(ContextValue::Id(delivery_job_id))
    } else {
        r is Err && is_invalid_status(r->Err_0, delivery_job_id, job.status, DeliveryStatus::Pending)
    }
}

fn require_pending(delivery_job_id: u128, job: &DeliveryJobState) -> (r: Result<(), DomainError>)
    ensures
        pending_guard(delivery_job_id, *job, r),
{
    match job.status {
        DeliveryStatus::Pending => Ok(()),
        DeliveryStatus::Assigned | DeliveryStatus::PickedUp | DeliveryStatus::OutForDelivery => {
            if job.assigned {
                Err(reject1("DeliveryAlreadyAssigned", "deliveryJobId", ContextValue::Id(delivery_job_id)))
            } else {
                Err(invalid_delivery_status(delivery_job_id, job.status, DeliveryStatus::Pending))
            }
        }
        _ => Err(invalid_delivery_status(delivery_job_id, job.status, DeliveryStatus::Pending)),
    }
}

/// A rider takes a pending job; the order comes from the job's birth, never from the client.
pub fn accept_delivery(delivery_job_id: u128, rider_id: u128, job: &DeliveryJobState) -> (r: Result<DeliveryJobEvent, DomainError>)
    ensures
        pending_guard(delivery_job_id, *job, match r { Ok(_) => Ok(()), Err(e) => Err(e) }),
        r is Ok ==> r == Ok::<DeliveryJobEvent, DomainError>(DeliveryJobEvent::AcceptedByRider {
            delivery_job_id,
            order_id: job.order_id,
            rider_id,
        }),
{
    require_pending(delivery_job_id, job)?;
    Ok(DeliveryJobEvent::AcceptedByRider { delivery_job_id, order_id: job.order_id, rider_id })
}

/// A rider declines a pending job; the decline is recorded and the job stays pending.
pub fn decline_delivery(delivery_job_id: u128, rider_id: u128, reason: Option<String>, job: &DeliveryJobState)
    -> (r: Result<DeliveryJobEvent, DomainError>)
    ensures
        pending_guard(delivery_job_id, *job, match r { Ok(_) => Ok(()), Err(e) => Err(e) }),
        r is Ok ==> r == Ok::<DeliveryJobEvent, DomainError>(DeliveryJobEvent::DeclinedByRider {
            delivery_job_id,
            rider_id,
            reason,
        }),
{
    require_pending(delivery_job_id, job)?;
    Ok(DeliveryJobEvent::DeclinedByRider { delivery_job_id, rider_id, reason })
}

/// The guard shared by pickup and completion: the life cycle must allow the step (else
/// `InvalidDeliveryStatus` with `expected`), and the job must be assigned to this rider (else the
/// same rejection, with the diagnostic).
pub open spec fn rider_step_guard(delivery_job_id: u128, rider_id: u128, job: DeliveryJobState, transition_legal: bool,
    expected: DeliveryStatus, r: Result<(), DomainError>) -> bool
{
    if !transition_legal {
        r is Err && is_invalid_status(r->Err_0, delivery_job_id, job.status, expected)
    } else if job.rider_id != Some(rider_id) {
        r is Err && is_invalid_status(r->Err_0, delivery_job_id, job.status, expected)
            && has_text(r->Err_0, "detail"@, not_assigned_detail(rider_id))
    } else {
        r is Ok
    }
}

fn require_rider_step(delivery_job_id: u128, rider_id: u128, job: &DeliveryJobState, transition_legal: bool,
    expected: DeliveryStatus) -> (r: Result<(), DomainError>)
    ensures
        rider_step_guard(delivery_job_id, rider_id, *job, transition_legal, expected, r),
{
    if !transition_legal {
        return Err(invalid_delivery_status(delivery_job_id, job.status, expected));
    }
    let assigned_here = match job.rider_id {
        Some(r) => r == rider_id,
        None => false,
    };
    if !assigned_here {
        return Err(invalid_status_with_detail(delivery_job_id, job.status, expected, not_assigned_to(rider_id)));
    }
    Ok(())
}

/// The assigned rider picks the job up; the life cycle allows it only from assigned.
pub fn confirm_pickup(delivery_job_id: u128, rider_id: u128, job: &DeliveryJobState, transition_legal: bool)
    -> (r: Result<DeliveryJobEvent, DomainError>)
    ensures
        rider_step_guard(delivery_job_id, rider_id, *job, transition_legal, DeliveryStatus::Assigned,
            match r { Ok(_) => Ok(()), Err(e) => Err(e) }),
        r is Ok ==> r == Ok::<DeliveryJobEvent, DomainError>(DeliveryJobEvent::PickedUp {
            delivery_job_id,
            order_id: job.order_id,
            rider_id,
        }),
{
    require_rider_step(delivery_job_id, rider_id, job, transition_legal, DeliveryStatus::Assigned)?;
    Ok(DeliveryJobEvent::PickedUp { delivery_job_id, order_id: job.order_id, rider_id })
}

/// The assigned rider completes the job; the life cycle allows it from picked up or out for
/// delivery.
pub fn complete_delivery(delivery_job_id: u128, rider_id: u128, job: &DeliveryJobState, transition_legal: bool)
    -> (r: Result<DeliveryJobEvent, DomainError>)
    ensures
        rider_step_guard(delivery_job_id, rider_id, *job, transition_legal, DeliveryStatus::PickedUp,
            match r { Ok(_) => Ok(()), Err(e) => Err(e) }),
        r is Ok ==> r == Ok::<DeliveryJobEvent, DomainError>(DeliveryJobEvent::Completed {
            delivery_job_id,
            order_id: job.order_id,
        }),
{
    require_rider_step(delivery_job_id, rider_id, job, transition_legal, DeliveryStatus::PickedUp)?;
    Ok(DeliveryJobEvent::Completed { delivery_job_id, order_id: job.order_id })
}

/// A job is cancelled before completion: an already cancelled job appends nothing; a step the life
/// cycle refuses (a delivered job) is `InvalidDeliveryStatus` (pending expected).
pub fn cancel_delivery(delivery_job_id: u128, reason: Option<String>, job: &DeliveryJobState, transition_legal: bool)
    -> (r: Result<Option<DeliveryJobEvent>, DomainError>)
    ensures
        job.status == DeliveryStatus::Cancelled ==> r == Ok::<Option<DeliveryJobEvent>, DomainError>(None),
        job.status != DeliveryStatus::Cancelled && !transition_legal ==> r is Err
            && is_invalid_status(r->Err_0, delivery_job_id, job.status, DeliveryStatus::Pending),
        job.status != DeliveryStatus::Cancelled && transition_legal ==> r
            == Ok::<Option<DeliveryJobEvent>, DomainError>(Some(DeliveryJobEvent::Cancelled { delivery_job_id, reason })),
{
    if job.status == DeliveryStatus::Cancelled {
        return Ok(None);
    }
    if !transition_legal {
        return Err(invalid_delivery_status(delivery_job_id, job.status, DeliveryStatus::Pending));
    }
    Ok(Some(DeliveryJobEvent::Cancelled { delivery_job_id, reason }))
}

/// An issue is reported on any job not yet delivered.
pub fn report_delivery_issue(delivery_job_id: u128, rider_id: Option<u128>, issue: String, job: &DeliveryJobState)
    -> (r: Result<DeliveryJobEvent, DomainError>)
    ensures
        job.status == DeliveryStatus::Delivered ==> r is Err
            && is_invalid_status(r->Err_0, delivery_job_id, DeliveryStatus::Delivered, DeliveryStatus::Pending),
        job.status != DeliveryStatus::Delivered ==> r
            == Ok::<DeliveryJobEvent, DomainError>(DeliveryJobEvent::IssueReported { delivery_job_id, rider_id, issue }),
{
    if job.status == DeliveryStatus::Delivered {
        return Err(invalid_delivery_status(delivery_job_id, job.status, DeliveryStatus::Pending));
    }
    Ok(DeliveryJobEvent::IssueReported { delivery_job_id, rider_id, issue })
}

/// An open issue is resolved on a job not yet delivered; with no open issue the rejection names the
/// current status as expected and says why.
pub fn resolve_delivery_issue(delivery_job_id: u128, resolution: String, job: &DeliveryJobState)
    -> (r: Result<DeliveryJobEvent, DomainError>)
    ensures
        job.status == DeliveryStatus::Delivered ==> r is Err
            && is_invalid_status(r->Err_0, delivery_job_id, DeliveryStatus::Delivered, DeliveryStatus::Pending),
        job.status != DeliveryStatus::Delivered && !job.open_issue ==> r is Err
            && is_invalid_status(r->Err_0, delivery_job_id, job.status, job.status)
            && has_text(r->Err_0, "detail"@, "no open issue to resolve"@),
        job.status != DeliveryStatus::Delivered && job.open_issue ==> r
            == Ok::<DeliveryJobEvent, DomainError>(DeliveryJobEvent::IssueResolved { delivery_job_id, resolution }),
{
    if job.status == DeliveryStatus::Delivered {
        return Err(invalid_delivery_status(delivery_job_id, job.status, DeliveryStatus::Pending));
    }
    if !job.open_issue {
        return Err(invalid_status_with_detail(delivery_job_id, job.status, job.status,
            String::from_str("no open issue to resolve")));
    }
    Ok(DeliveryJobEvent::IssueResolved { delivery_job_id, resolution })
}

/// A partner assignment is undone: the life cycle allows it only from assigned, and only a job a
/// partner holds (a rider-assigned job has no partner to unassign).
pub fn unassign_delivery_from_partner(delivery_job_id: u128, reason: Option<String>, job: &DeliveryJobState,
    transition_legal: bool) -> (r: Result<DeliveryJobEvent, DomainError>)
    ensures
        !transition_legal ==> r is Err
            && is_invalid_status(r->Err_0, delivery_job_id, job.status, DeliveryStatus::Assigned),
        transition_legal && job.partner_ref is None ==> r is Err
            && is_invalid_status(r->Err_0, delivery_job_id, job.status, DeliveryStatus::Assigned)
            && has_text(r->Err_0, "detail"@, "job is not assigned to a partner"@),
        transition_legal && job.partner_ref is Some ==> r
            == Ok::<DeliveryJobEvent, DomainError>(DeliveryJobEvent::UnassignedFromPartner { delivery_job_id, reason }),
{
    if !transition_legal {
        return Err(invalid_delivery_status(delivery_job_id, job.status, DeliveryStatus::Assigned));
    }
    if job.partner_ref.is_none() {
        return Err(invalid_status_with_detail(delivery_job_id, job.status, DeliveryStatus::Assigned,
            String::from_str("job is not assigned to a partner")));
    }
    Ok(DeliveryJobEvent::UnassignedFromPartner { delivery_job_id, reason })
}

} // verus!
