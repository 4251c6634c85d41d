//! A customer claim's life cycle: opened once per claim id, decided (resolved or rejected) only
//! while open, reopened only once decided. A partial refund names its amount and a rejection states
//! its reason. The order and the claimant ride along from the claim's own birth.

use vstd::prelude::*;
use crate::errors::{is_blank, reject1, trim, ContextValue, DomainError};
use crate::model::Money;
use crate::refunds::{ReclamationResolution, ReclamationResolved};

verus! {

/// Where a claim stands.
#[derive(Debug, Clone, Copy, PartialEq, Eq, Structural)]
pub enum ReclamationStatus {
    Open,
    Resolved,
    Rejected,
}

/// What the claim's decisions read of it, folded from its stream.
#[derive(Debug, Clone, PartialEq, Eq)]
pub struct ReclamationState {
    pub order_id: u128,
    pub customer_id: u128,
    pub status: ReclamationStatus,
}

/// The claim exists, or the command is refused with `ReclamationNotFound`.
pub fn require_reclamation(reclamation_id: u128, claim: Option<ReclamationState>) -> (r: Result<ReclamationState, DomainError>)
    ensures
        claim matches Some(c) ==> r == Ok::<ReclamationState, DomainError>(c),
        claim is None ==> r is Err && r->Err_0.rejected_code() == Some("ReclamationNotFound"@)
            && r->Err_0.context_value("reclamationId"@) == Some(ContextValue::Id(reclamation_id)),
{
    match claim {
        Some(c) => Ok(c),
        None => Err(reject1("ReclamationNotFound", "reclamationId", ContextValue::Id(reclamation_id))),
    }
}

/// The `ReclamationAlreadyExists` refusal: the claim id is taken (or was, by a racing writer).
pub fn reclamation_already_exists(reclamation_id: u128) -> (e: DomainError)
    ensures
        e.rejected_code() == Some("ReclamationAlreadyExists"@),
        e.context_value("reclamationId"@) == Some(ContextValue::Id(reclamation_id)),
{
    reject1("ReclamationAlreadyExists", "reclamationId", ContextValue::Id(reclamation_id))
}

/// A claim is opened once per id.
pub fn open_reclamation(reclamation_id: u128, already_exists: bool) -> (r: Result<(), DomainError>)
    ensures
        already_exists ==> r is Err && r->Err_0.rejected_code() == Some("ReclamationAlreadyExists"@)
            && r->Err_0.context_value("reclamationId"@) == Some(ContextValue::Id(reclamation_id)),
        !already_exists ==> r is Ok,
{
    if already_exists {
        return Err(reclamation_already_exists(reclamation_id));
    }
    Ok(())
}

fn not_open(reclamation_id: u128) -> (e: DomainError)
    ensures
        e.rejected_code() == Some("ReclamationNotOpen"@),
        e.context_value("reclamationId"@) == Some(ContextValue::Id(reclamation_id)),
{
    reject1("ReclamationNotOpen", "reclamationId", ContextValue::Id(reclamation_id))
}

/// What resolving a claim answers (see `resolve_reclamation`).
pub open spec fn resolve_outcome(reclamation_id: u128, claim: ReclamationState, resolution: ReclamationResolution,
    refund_amount: Option<Money>, note: Option<String>, r: Result<ReclamationResolved, DomainError>) -> bool
{
    &&& (claim.status != ReclamationStatus::Open ==> r is Err
            && r->Err_0.rejected_code() == Some("ReclamationNotOpen"@)
            && r->Err_0.context_value("reclamationId"@) == Some(ContextValue::Id(reclamation_id)))
    &&& (claim.status == ReclamationStatus::Open && resolution == ReclamationResolution::PartialRefund
            && refund_amount is None ==> r is Err
            && r->Err_0.rejected_code() == Some("PartialRefundAmountRequired"@)
            && r->Err_0.context_value("reclamationId"@) == Some(ContextValue::Id(reclamation_id)))
    &&& (claim.status == ReclamationStatus::Open
            && !(resolution == ReclamationResolution::PartialRefund && refund_amount is None)
            ==> r == Ok::<ReclamationResolved, DomainError>(ReclamationResolved {
                reclamation_id,
                order_id: claim.order_id,
                customer_id: claim.customer_id,
                resolution,
                refund_amount,
                note,
            }))
}

/// A claim is resolved only while open (`ReclamationNotOpen`); a partial refund names its amount
/// (`PartialRefundAmountRequired`). The decision is recorded with the claim's order and claimant.
pub fn resolve_reclamation(reclamation_id: u128, claim: &ReclamationState, resolution: ReclamationResolution,
    refund_amount: Option<Money>, note: Option<String>) -> (r: Result<ReclamationResolved, DomainError>)
    ensures
        resolve_outcome(reclamation_id, *claim, resolution, refund_amount, note, r),
{
    if claim.status != ReclamationStatus::Open {
        return Err(not_open(reclamation_id));
    }
    if resolution == ReclamationResolution::PartialRefund && refund_amount.is_none() {
        return Err(reject1("PartialRefundAmountRequired", "reclamationId", ContextValue::Id(reclamation_id)));
    }
    Ok(ReclamationResolved {
        reclamation_id,
        order_id: claim.order_id,
        customer_id: claim.customer_id,
        resolution,
        refund_amount,
        note,
    })
}

/// A claim is rejected only while open (`ReclamationNotOpen`), with a reason that is not blank
/// (`RejectionReasonRequired`); the answer is the reason as given.
pub fn reject_reclamation(reclamation_id: u128, claim: &ReclamationState, reason: Option<String>)
    -> (r: Result<String, DomainError>)
    ensures
        claim.status != ReclamationStatus::Open ==> r is Err && r->Err_0.rejected_code() == Some("ReclamationNotOpen"@)
            && r->Err_0.context_value("reclamationId"@) == Some(ContextValue::Id(reclamation_id)),
        claim.status == ReclamationStatus::Open && !(reason matches Some(s) && trim(s@).len() > 0) ==> r is Err
            && r->Err_0.rejected_code() == Some("RejectionReasonRequired"@)
            && r->Err_0.context_value("reclamationId"@) == Some(ContextValue::Id(reclamation_id)),
        claim.status == ReclamationStatus::Open && (reason matches Some(s) && trim(s@).len() > 0)
            ==> r == Ok::<String, DomainError>(reason->0),
{
    if claim.status != ReclamationStatus::Open {
        return Err(not_open(reclamation_id));
    }
    match reason {
        Some(s) => {
            if is_blank(&s) {
                return Err(reject1("RejectionReasonRequired", "reclamationId", ContextValue::Id(reclamation_id)));
            }
            Ok(s)
        }
        None => Err(reject1("RejectionReasonRequired", "reclamationId", ContextValue::Id(reclamation_id))),
    }
}

/// What reopening a claim answers (see `reopen_reclamation`).
pub open spec fn reopen_outcome(reclamation_id: u128, claim: ReclamationState, r: Result<(), DomainError>) -> bool {
    &&& (claim.status == ReclamationStatus::Open ==> r is Err
            && r->Err_0.rejected_code() == Some("ReclamationNotReopenable"@)
            && r->Err_0.context_value("reclamationId"@) == Some(ContextValue::Id(reclamation_id)))
    &&& (claim.status != ReclamationStatus::Open ==> r is Ok)
}

/// Only a decided claim is reopened (`ReclamationNotReopenable` while open).
pub fn reopen_reclamation(reclamation_id: u128, claim: &ReclamationState) -> (r: Result<(), DomainError>)
    ensures
        reopen_outcome(reclamation_id, *claim, r),
{
    if claim.status == ReclamationStatus::Open {
        return Err(reject1("ReclamationNotReopenable", "reclamationId", ContextValue::Id(reclamation_id)));
    }
    Ok(())
}

/// Only an open claim is decided and only a decided claim is reopened: on any claim, resolving it
/// and reopening it never both go through.
pub proof fn law_decide_and_reopen_exclude(reclamation_id: u128, claim: ReclamationState,
    resolution: ReclamationResolution, refund_amount: Option<Money>, note: Option<String>,
    decided: Result<ReclamationResolved, DomainError>, reopened: Result<(), DomainError>)
    requires
        resolve_outcome(reclamation_id, claim, resolution, refund_amount, note, decided),
        reopen_outcome(reclamation_id, claim, reopened),
    ensures
        !(decided is Ok && reopened is Ok),
{
}

} // verus!
