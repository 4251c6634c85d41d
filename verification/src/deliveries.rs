//! Recording a delivery partner's inbound facts on the job's stream, once each: an acceptance by
//! the partner already assigned, or a status the job already has, is already recorded; a fact the
//! job's life cycle cannot take is refused loudly (the partner is out of sync); a decline is always
//! recorded.

use vstd::prelude::*;
use crate::commands::RecordOutcome;
use crate::delivery_dispatch::DeliveryStatus;
use crate::errors::DomainError;
use crate::outside::{uuid_text, uuid_to_text};

verus! {

/// A delivery partner's inbound fact about a job.
#[derive(Debug, Clone, PartialEq, Eq)]
pub enum DeliveryFact {
    AcceptedByPartner { delivery_job_id: u128, partner_ref: String },
    RejectedByPartner { delivery_job_id: u128 },
    StatusUpdated { delivery_job_id: u128, status: DeliveryStatus },
}

/// What recording reads of the job: whether a partner is assigned, which one, and its status.
#[derive(Debug, Clone, PartialEq, Eq)]
pub struct DeliveryJobView {
    pub assigned: bool,
    pub partner_ref: Option<String>,
    pub status: DeliveryStatus,
}

/// The job a fact is about.
pub open spec fn fact_job(fact: DeliveryFact) -> u128 {
    match fact {
        DeliveryFact::AcceptedByPartner { delivery_job_id, .. } => delivery_job_id,
        DeliveryFact::RejectedByPartner { delivery_job_id } => delivery_job_id,
        DeliveryFact::StatusUpdated { delivery_job_id, .. } => delivery_job_id,
    }
}

/// The job a fact is about.
pub fn delivery_job_of(fact: &DeliveryFact) -> (id: u128)
    ensures
        id == fact_job(*fact),
{
    match fact {
        DeliveryFact::AcceptedByPartner { delivery_job_id, .. } => *delivery_job_id,
        DeliveryFact::RejectedByPartner { delivery_job_id } => *delivery_job_id,
        DeliveryFact::StatusUpdated { delivery_job_id, .. } => *delivery_job_id,
    }
}

/// The fact's event name.
pub open spec fn fact_name(fact: DeliveryFact) -> Seq<char> {
    match fact {
        DeliveryFact::AcceptedByPartner { .. } => "DeliveryAcceptedByPartner"@,
        DeliveryFact::RejectedByPartner { .. } => "DeliveryRejectedByPartner"@,
        DeliveryFact::StatusUpdated { .. } => "DeliveryStatusUpdated"@,
    }
}

/// The refusal of a fact the job's life cycle cannot take: it names the fact, the job and the
/// job's status.
pub open spec fn illegal_fact_message(fact: DeliveryFact, status: DeliveryStatus) -> Seq<char> {
    "inbound "@ + fact_name(fact) + " cannot legally apply to job "@ + uuid_text(fact_job(fact)) + " in status "@
        + status.wire_name() + " (partner out of sync; row kept for ops)"@
}

/// What recording a fact decides: already recorded (nothing appended), refused with its message, or
/// appended (`None`, then `Recorded`). `transition_legal` is whether the job's life cycle takes the
/// fact; `stream_holds_identical` is whether, for a job not yet born, the identical fact is already on it.
pub open spec fn delivery_record_spec(fact: DeliveryFact, job: Option<DeliveryJobView>, transition_legal: bool,
    stream_holds_identical: bool) -> Result<Option<RecordOutcome>, Seq<char>>
{
    match job {
        None => if stream_holds_identical { Ok(Some(RecordOutcome::AlreadyRecorded)) } else { Ok(None) },
        Some(j) => match fact {
            DeliveryFact::AcceptedByPartner { partner_ref, .. } => if j.assigned && (j.partner_ref matches Some(p) && p@ == partner_ref@) {
                Ok(Some(RecordOutcome::AlreadyRecorded))
            } else if !transition_legal {
                Err(illegal_fact_message(fact, j.status))
            } else {
                Ok(None)
            },
            DeliveryFact::StatusUpdated { status, .. } => if j.status == status {
                Ok(Some(RecordOutcome::AlreadyRecorded))
            } else if !transition_legal {
                Err(illegal_fact_message(fact, j.status))
            } else {
                Ok(None)
            },
            DeliveryFact::RejectedByPartner { .. } => Ok(None),
        },
    }
}

/// The repository fault refusing a fact the job's life cycle cannot take.
fn illegal_fact(fact: &DeliveryFact, status: DeliveryStatus) -> (e: DomainError)
    ensures
        e matches DomainError::Repository(m) && m@ == illegal_fact_message(*fact, status),
{
    let name = match fact {
        DeliveryFact::AcceptedByPartner { .. } => "DeliveryAcceptedByPartner",
        DeliveryFact::RejectedByPartner { .. } => "DeliveryRejectedByPartner",
        DeliveryFact::StatusUpdated { .. } => "DeliveryStatusUpdated",
    };
    let job = uuid_to_text(delivery_job_of(fact));
    let mut m = String::from_str("inbound ");
    m.append(name);
    m.append(" cannot legally apply to job ");
    m.append(job.as_str());
    m.append(" in status ");
    m.append(status.as_str());
    m.append(" (partner out of sync; row kept for ops)");
    DomainError::Repository(m)
}

/// Records an inbound delivery fact (see `delivery_record_spec`); a refusal is a repository fault
/// carrying its message, kept for operations.
pub fn record_inbound_delivery_event(fact: &DeliveryFact, job: &Option<DeliveryJobView>, transition_legal: bool,
    stream_holds_identical: bool) -> (r: Result<Option<RecordOutcome>, DomainError>)
    ensures
        match delivery_record_spec(*fact, *job, transition_legal, stream_holds_identical) {
            Ok(o) => r == Ok::<Option<RecordOutcome>, DomainError>(o),
            Err(msg) => r matches Err(DomainError::Repository(m)) && m@ == msg,
        },
{
    match job {
        None => {
            if stream_holds_identical {
                Ok(Some(RecordOutcome::AlreadyRecorded))
            } else {
                Ok(None)
            }
        }
        Some(j) => match fact {
            DeliveryFact::AcceptedByPartner { partner_ref, .. } => {
                let same_partner = match &j.partner_ref {
                    Some(p) => *p == *partner_ref,
                    None => false,
                };
                if j.assigned && same_partner {
                    Ok(Some(RecordOutcome::AlreadyRecorded))
                } else if !transition_legal {
                    Err(illegal_fact(fact, j.status))
                } else {
                    Ok(None)
                }
            }
            DeliveryFact::StatusUpdated { status, .. } => {
                if j.status == *status {
                    Ok(Some(RecordOutcome::AlreadyRecorded))
                } else if !transition_legal {
                    Err(illegal_fact(fact, j.status))
                } else {
                    Ok(None)
                }
            }
            DeliveryFact::RejectedByPartner { .. } => Ok(None),
        },
    }
}

/// Every other inbound fact is decided by its inputs alone: a decline is always appended; a status
/// report the job already sits in is already recorded, any other status is appended when the life
/// cycle takes it and refused otherwise; on a stream with no birth, a fact is already recorded exactly
/// when the identical fact is on it, and appended otherwise.
pub proof fn law_inbound_facts_decided_by_their_inputs(fact: DeliveryFact, job: Option<DeliveryJobView>,
    transition_legal: bool, identical: bool, r: Result<Option<RecordOutcome>, DomainError>)
    requires
        match delivery_record_spec(fact, job, transition_legal, identical) {
            Ok(o) => r == Ok::<Option<RecordOutcome>, DomainError>(o),
            Err(msg) => r matches Err(DomainError::Repository(m)) && m@ == msg,
        },
    ensures
        match (fact, job) {
            (_, None) => r == Ok::<Option<RecordOutcome>, DomainError>(
                if identical { Some(RecordOutcome::AlreadyRecorded) } else { None }),
            (DeliveryFact::RejectedByPartner { .. }, Some(_)) => r == Ok::<Option<RecordOutcome>, DomainError>(None),
            (DeliveryFact::StatusUpdated { status, .. }, Some(j)) => if status == j.status {
                r == Ok::<Option<RecordOutcome>, DomainError>(Some(RecordOutcome::AlreadyRecorded))
            } else if transition_legal {
                r == Ok::<Option<RecordOutcome>, DomainError>(None)
            } else {
                r matches Err(e) && e is Repository
            },
            _ => true,
        },
{
}

/// Only the assigned partner's own acceptance is a re-delivery: an acceptance naming a partner the
/// job is not assigned to (another partner, or none yet) goes through the life cycle — appended when
/// the transition is legal, refused as a repository fault naming the fact when it is not — and is
/// never reported as already recorded.
pub proof fn law_other_partners_acceptance_is_checked(delivery_job_id: u128, partner_ref: String, j: DeliveryJobView,
    transition_legal: bool, identical: bool, r: Result<Option<RecordOutcome>, DomainError>)
    requires
        !(j.assigned && (j.partner_ref matches Some(p) && p@ == partner_ref@)),
        match delivery_record_spec(DeliveryFact::AcceptedByPartner { delivery_job_id, partner_ref }, Some(j),
            transition_legal, identical) {
            Ok(o) => r == Ok::<Option<RecordOutcome>, DomainError>(o),
            Err(msg) => r matches Err(DomainError::Repository(m)) && m@ == msg,
        },
    ensures
        r != Ok::<Option<RecordOutcome>, DomainError>(Some(RecordOutcome::AlreadyRecorded)),
        transition_legal ==> r == Ok::<Option<RecordOutcome>, DomainError>(None),
        !transition_legal ==> (r matches Err(DomainError::Repository(m))
            && m@ == "inbound "@ + "DeliveryAcceptedByPartner"@ + " cannot legally apply to job "@ + uuid_text(delivery_job_id)
                + " in status "@ + j.status.wire_name() + " (partner out of sync; row kept for ops)"@),
{
}

/// Recording is idempotent: a status the job already has, or the assigned partner's acceptance, is
/// never appended twice, whatever the life cycle says.
pub proof fn law_delivery_fact_recorded_once(fact: DeliveryFact, j: DeliveryJobView, transition_legal: bool, identical: bool)
    requires
        (fact matches DeliveryFact::StatusUpdated { status, .. } && status == j.status)
            || (fact matches DeliveryFact::AcceptedByPartner { partner_ref, .. } && j.assigned
                && (j.partner_ref matches Some(p) && p@ == partner_ref@)),
    ensures
        delivery_record_spec(fact, Some(j), transition_legal, identical) == Ok::<Option<RecordOutcome>, Seq<char>>(Some(RecordOutcome::AlreadyRecorded)),
{
}

} // verus!
