//! The delivery-dispatch saga's decisions. When a delivery order is ready, a delivery job is born and
//! — for platform dispatch — offered to the city's rank-1 channel; a self-dispatching restaurant is
//! only tracked. A partner decline, an offer timeout or an escalation walks the run to the next
//! ranked channel; once every ranked channel has declined, the dispatch fails closed. A partner's
//! acceptance and the delivered status advance and close the run.

use vstd::prelude::*;
use crate::dispatch_strategy::{channel_at_spec, plan_answer, resolve_plan, DispatchPlan, DispatchStrategyRepository,
    RestaurantDispatchMode};
use crate::errors::{reject1, ContextValue, DomainError};
use crate::outside::uuid_v5_id;
use crate::pm_state::{copy_text, DeliveryDispatchProcessStatus, DeliveryDispatchRow};
use crate::process_managers::{be_bytes, namespace_of, uuid_v5_of_id, HookOutcome, NAMESPACE_URL};
use vstd::string::StringSliceAdditionalSpecFns;

verus! {

/// A postal address.
#[derive(Debug, Clone, PartialEq, Eq)]
pub struct Address {
    pub line1: String,
    pub line2: Option<String>,
    pub postal_code: String,
    pub city: String,
    pub country: String,
}

impl Address {
    /// A field-for-field copy.
    pub fn duplicate(&self) -> (r: Self)
        ensures
            r == *self,
    {
        Address {
            line1: self.line1.clone(),
            line2: copy_text(&self.line2),
            postal_code: self.postal_code.clone(),
            city: self.city.clone(),
            country: self.country.clone(),
        }
    }
}

/// The delivery job's birth fact: where to pick up, where to drop off.
#[derive(Debug, Clone, PartialEq, Eq)]
pub struct DeliveryRequested {
    pub test_mode: bool,
    pub delivery_job_id: u128,
    pub order_id: u128,
    pub restaurant_id: u128,
    pub pickup: Address,
    pub dropoff: Address,
    pub provider: Option<String>,
}

/// What the partner is asked: this job, on this channel.
#[derive(Debug, Clone, PartialEq, Eq)]
pub struct DeliveryOfferJobInput {
    pub job: DeliveryRequested,
    pub channel: String,
}

/// The dispatch failed closed: every ranked channel declined.
#[derive(Debug, Clone, PartialEq, Eq)]
pub struct DeliveryDispatchFailed {
    pub delivery_job_id: u128,
    pub order_id: u128,
    pub attempts: i32,
    pub last_reason: Option<String>,
}

/// The URL the dispatch saga's name-based ids hang off.
pub open spec fn dispatch_url() -> Seq<u8> {
    "https://captain.food/process-managers/delivery-dispatch".spec_bytes()
}

/// The delivery job of an order: the name-based UUID of the order id in the dispatch namespace, so
/// a re-delivered trigger re-targets the same job.
pub fn delivery_job_id_for(order_id: u128) -> (job: u128)
    ensures
        job == uuid_v5_id(uuid_v5_id(NAMESPACE_URL, dispatch_url()), be_bytes(order_id as nat, 16)),
{
    let ns = namespace_of("https://captain.food/process-managers/delivery-dispatch");
    uuid_v5_of_id(ns, order_id)
}

/// A fact of a restaurant's stream, as the pickup address reads it.
#[derive(Debug, Clone, PartialEq, Eq)]
pub enum RestaurantAddressFact {
    Registered { address: Address },
    Updated { address: Option<Address> },
    Other,
}

/// The restaurant's current address: the registration's, replaced by every update that carries one.
pub open spec fn address_after(facts: Seq<RestaurantAddressFact>) -> Option<Address>
    decreases facts.len(),
{
    if facts.len() == 0 {
        None
    } else {
        let before = address_after(facts.drop_last());
        match facts.last() {
            RestaurantAddressFact::Registered { address } => Some(address),
            RestaurantAddressFact::Updated { address } => match address {
                Some(a) => Some(a),
                None => before,
            },
            RestaurantAddressFact::Other => before,
        }
    }
}

/// The restaurant's pickup address, folded from its stream.
pub fn restaurant_address(facts: &Vec<RestaurantAddressFact>) -> (r: Option<Address>)
    ensures
        r == address_after(facts@),
{
    let mut addr: Option<Address> = None;
    let mut i: usize = 0;
    while i < facts.len()
        invariant
            i <= facts@.len(),
            addr == address_after(facts@.take(i as int)),
        decreases facts.len() - i,
    {
        proof {
            assert(facts@.take(i as int + 1).drop_last() =~= facts@.take(i as int));
            assert(facts@.take(i as int + 1).last() == facts@[i as int]);
        }
        match &facts[i] {
            RestaurantAddressFact::Registered { address } => {
                addr = Some(address.duplicate());
            }
            RestaurantAddressFact::Updated { address } => match address {
                Some(a) => {
                    addr = Some(a.duplicate());
                }
                None => {}
            },
            RestaurantAddressFact::Other => {}
        }
        i += 1;
    }
    assert(facts@.take(facts@.len() as int) =~= facts@);
    addr
}

/// The job's birth for a ready delivery order: the order's drop-off and the restaurant's pickup,
/// under the order's deterministic job id; a missing address skips the leg.
pub fn build_delivery_requested(order_id: u128, restaurant_id: u128, dropoff: Option<Address>, pickup: Option<Address>,
    test_mode: bool) -> (r: HookOutcome<DeliveryRequested>)
    ensures
        dropoff is None ==> r is Skip,
        dropoff is Some && pickup is None ==> r is Skip,
        dropoff is Some && pickup is Some ==> (r matches HookOutcome::Ready(d) && {
            &&& d.test_mode == test_mode
            &&& d.delivery_job_id == uuid_v5_id(uuid_v5_id(NAMESPACE_URL, dispatch_url()), be_bytes(order_id as nat, 16))
            &&& d.order_id == order_id
            &&& d.restaurant_id == restaurant_id
            &&& d.pickup == pickup->0
            &&& d.dropoff == dropoff->0
            &&& d.provider is None
        }),
{
    let dropoff = match dropoff {
        None => {
            return HookOutcome::Skip(String::from_str("the delivery order carries no decodable delivery address — cannot dispatch"));
        }
        Some(d) => d,
    };
    let pickup = match pickup {
        None => {
            return HookOutcome::Skip(String::from_str("the restaurant has no address on its stream — cannot set the pickup"));
        }
        Some(p) => p,
    };
    HookOutcome::Ready(DeliveryRequested {
        test_mode,
        delivery_job_id: delivery_job_id_for(order_id),
        order_id,
        restaurant_id,
        pickup,
        dropoff,
        provider: None,
    })
}

/// The status a dispatch run opens in: tracked only for a self-dispatching restaurant, offered
/// otherwise.
pub fn open_process_status(plan: &DispatchPlan) -> (s: DeliveryDispatchProcessStatus)
    ensures
        plan.mode == RestaurantDispatchMode::Restaurant ==> s == DeliveryDispatchProcessStatus::SelfDispatched,
        plan.mode != RestaurantDispatchMode::Restaurant ==> s == DeliveryDispatchProcessStatus::Offered,
{
    if plan.is_self_dispatched() {
        DeliveryDispatchProcessStatus::SelfDispatched
    } else {
        DeliveryDispatchProcessStatus::Offered
    }
}

/// The rank a run opens at: 1 when a rank-1 channel is offered, none otherwise.
pub fn open_current_rank(plan: &DispatchPlan) -> (r: Option<i32>)
    ensures
        r == (if plan.mode != RestaurantDispatchMode::Restaurant && channel_at_spec(*plan, 1) is Some {
            Some(1i32)
        } else {
            None
        }),
{
    if !plan.is_self_dispatched() && plan.channel_at(1).is_some() {
        Some(1)
    } else {
        None
    }
}

/// The channel a run opens on: the rank-1 channel under platform dispatch, none otherwise.
pub fn open_current_channel(plan: &DispatchPlan) -> (r: Option<String>)
    ensures
        r == (if plan.mode == RestaurantDispatchMode::Restaurant { None } else { channel_at_spec(*plan, 1) }),
{
    if plan.is_self_dispatched() {
        None
    } else {
        plan.channel_at(1)
    }
}

/// The opening offer: the job on the rank-1 channel; a self-dispatched order, or a city without
/// ranked channels, offers nothing (the call step is skipped).
pub fn open_offer(plan: &DispatchPlan, job: DeliveryRequested) -> (r: HookOutcome<DeliveryOfferJobInput>)
    ensures
        plan.mode == RestaurantDispatchMode::Restaurant ==> r is Skip,
        plan.mode != RestaurantDispatchMode::Restaurant ==> match channel_at_spec(*plan, 1) {
            None => r is Skip,
            Some(c) => r == HookOutcome::Ready(DeliveryOfferJobInput { job, channel: c }),
        },
{
    if plan.is_self_dispatched() {
        return HookOutcome::Skip(String::from_str("the order is restaurant-dispatched — no channel is offered, the delivery is only tracked"));
    }
    match plan.channel_at(1) {
        None => HookOutcome::Skip(String::from_str("the order is platform-dispatched but its city has no ranked channels — nothing to offer")),
        Some(channel) => HookOutcome::Ready(DeliveryOfferJobInput { job, channel }),
    }
}

/// The rank after the run's current one (rank 1 when none was offered).
pub open spec fn next_rank_spec(row: DeliveryDispatchRow) -> int {
    match row.current_rank {
        Some(r) => r + 1,
        None => 1,
    }
}

/// The rank after the run's current one.
pub fn next_rank(row: &DeliveryDispatchRow) -> (r: i32)
    requires
        next_rank_spec(*row) <= i32::MAX,
    ensures
        r == next_rank_spec(*row),
{
    match row.current_rank {
        Some(r) => r + 1,
        None => 1,
    }
}

/// What one advance of the walk (a decline, an offer timeout, an escalation) does.
#[derive(Debug, Clone, PartialEq, Eq)]
pub enum DispatchAdvance {
    /// Offer the job to the next ranked channel and store the stepped run.
    Reoffer { offer: DeliveryOfferJobInput, row: DeliveryDispatchRow },
    /// Every ranked channel declined: record the failure and store the run, failed.
    Fail { failed: DeliveryDispatchFailed, row: DeliveryDispatchRow },
    /// A benign no-op.
    Skip(String),
}

/// The run after a re-offer on `channel`: one rank further, one more attempt, still offered.
pub open spec fn stepped(row: DeliveryDispatchRow, channel: String) -> DeliveryDispatchRow {
    DeliveryDispatchRow {
        process_status: DeliveryDispatchProcessStatus::Offered,
        offer_attempts: (row.offer_attempts + 1) as i32,
        current_rank: Some(next_rank_spec(row) as i32),
        current_channel: Some(channel),
        ..row
    }
}

/// What one advance of the walk answers for an existing run.
pub open spec fn advance_outcome(row: DeliveryDispatchRow, plan: DispatchPlan, birth: Option<DeliveryRequested>,
    reason: Option<String>, r: Result<DispatchAdvance, DomainError>) -> bool
{
    if row.process_status != DeliveryDispatchProcessStatus::Offered {
        r matches Ok(a) && a is Skip
    } else {
        match channel_at_spec(plan, next_rank_spec(row) as i32) {
            Some(c) => match birth {
                Some(b) => r == Ok::<DispatchAdvance, DomainError>(DispatchAdvance::Reoffer {
                    offer: DeliveryOfferJobInput { job: b, channel: c },
                    row: stepped(row, c),
                }),
                None => r matches Ok(a) && a is Skip,
            },
            None => r == Ok::<DispatchAdvance, DomainError>(DispatchAdvance::Fail {
                failed: DeliveryDispatchFailed {
                    delivery_job_id: row.delivery_job_id,
                    order_id: row.order_id,
                    attempts: row.offer_attempts,
                    last_reason: reason,
                },
                row: DeliveryDispatchRow { process_status: DeliveryDispatchProcessStatus::Failed, ..row },
            }),
        }
    }
}

/// The `DeliveryJobNotFound` error: a partner fact for a job no run knows.
pub fn job_not_found(delivery_job_id: u128) -> (e: DomainError)
    ensures
        e.rejected_code() == Some("DeliveryJobNotFound"@),
        e.context_value("deliveryJobId"@) == Some(ContextValue::Id(delivery_job_id)),
{
    reject1("DeliveryJobNotFound", "deliveryJobId", ContextValue::Id(delivery_job_id))
}

/// One advance of the ranked walk. A fact for an unknown job is `DeliveryJobNotFound`; a run that is
/// no longer offered (accepted, failed, completed) is a benign skip, so a re-delivered decline never
/// offers or fails twice. While a channel is ranked after the current one, the job (`birth`, its
/// recorded birth) is offered there and the run steps one rank and one attempt; when none is left, the
/// dispatch fails closed with the attempts made and the last reason.
pub fn advance_dispatch(delivery_job_id: u128, run: Option<DeliveryDispatchRow>, plan: &DispatchPlan,
    birth: Option<DeliveryRequested>, reason: Option<String>) -> (r: Result<DispatchAdvance, DomainError>)
    requires
        run matches Some(row) ==> next_rank_spec(row) <= i32::MAX && row.offer_attempts < i32::MAX,
    ensures
        run is None ==> r is Err && r->Err_0.rejected_code() == Some("DeliveryJobNotFound"@)
            && r->Err_0.context_value("deliveryJobId"@) == Some(ContextValue::Id(delivery_job_id)),
        run matches Some(row) ==> advance_outcome(row, *plan, birth, reason, r),
{
    let row = match run {
        None => {
            return Err(job_not_found(delivery_job_id));
        }
        Some(row) => row,
    };
    if row.process_status != DeliveryDispatchProcessStatus::Offered {
        return Ok(DispatchAdvance::Skip(String::from_str("the dispatch run is no longer offered — benign re-delivery")));
    }
    let rank = next_rank(&row);
    match plan.channel_at(rank) {
        Some(channel) => match birth {
            None => Ok(DispatchAdvance::Skip(String::from_str("the job has no recorded birth to re-offer"))),
            Some(job) => {
                let stepped_row = DeliveryDispatchRow {
                    order_id: row.order_id,
                    restaurant_id: row.restaurant_id,
                    delivery_job_id: row.delivery_job_id,
                    process_status: DeliveryDispatchProcessStatus::Offered,
                    offer_attempts: row.offer_attempts + 1,
                    current_rank: Some(rank),
                    current_channel: Some(channel.clone()),
                    last_update_utc: row.last_update_utc,
                };
                Ok(DispatchAdvance::Reoffer { offer: DeliveryOfferJobInput { job, channel }, row: stepped_row })
            }
        },
        None => {
            let failed = DeliveryDispatchFailed {
                delivery_job_id: row.delivery_job_id,
                order_id: row.order_id,
                attempts: row.offer_attempts,
                last_reason: reason,
            };
            let failed_row = DeliveryDispatchRow { process_status: DeliveryDispatchProcessStatus::Failed, ..row };
            Ok(DispatchAdvance::Fail { failed, row: failed_row })
        }
    }
}

/// The delivery-partner port: offer a job on a channel.
pub trait DeliveryService {
    /// Offers the job to the partner behind the channel.
    fn offer_job(&self, input: &DeliveryOfferJobInput) -> Result<(), DomainError>;
}

/// The delivery partner that offers nowhere: every offer succeeds and goes nowhere (independent
/// riders can still accept from the job stream).
pub struct NoopDeliveryService;

impl DeliveryService for NoopDeliveryService {
    fn offer_job(&self, input: &DeliveryOfferJobInput) -> (r: Result<(), DomainError>)
        ensures
            r is Ok,
    {
        Ok(())
    }
}

/// The tracking legs of a run: they carry no hook of their own.
pub struct DispatchTrackHooks;

/// The status of a delivery as the partner reports it.
#[derive(Debug, Clone, Copy, PartialEq, Eq, Structural)]
pub enum DeliveryStatus {
    Pending,
    Assigned,
    PickedUp,
    OutForDelivery,
    Delivered,
    Cancelled,
    Failed,
}

impl DeliveryStatus {
    /// The status's wire name.
    pub open spec fn wire_name(self) -> Seq<char> {
        match self {
            DeliveryStatus::Pending => "PENDING"@,
            DeliveryStatus::Assigned => "ASSIGNED"@,
            DeliveryStatus::PickedUp => "PICKED_UP"@,
            DeliveryStatus::OutForDelivery => "OUT_FOR_DELIVERY"@,
            DeliveryStatus::Delivered => "DELIVERED"@,
            DeliveryStatus::Cancelled => "CANCELLED"@,
            DeliveryStatus::Failed => "FAILED"@,
        }
    }

    /// The status's wire name, as the catalogued rejections render it.
    pub fn as_str(self) -> (s: &'static str)
        ensures
            s@ == self.wire_name(),
    {
        match self {
            DeliveryStatus::Pending => "PENDING",
            DeliveryStatus::Assigned => "ASSIGNED",
            DeliveryStatus::PickedUp => "PICKED_UP",
            DeliveryStatus::OutForDelivery => "OUT_FOR_DELIVERY",
            DeliveryStatus::Delivered => "DELIVERED",
            DeliveryStatus::Cancelled => "CANCELLED",
            DeliveryStatus::Failed => "FAILED",
        }
    }
}

/// What a tracking fact does to the run.
#[derive(Debug, Clone, PartialEq, Eq)]
pub enum DispatchTrack {
    /// Store the run, advanced.
    Advance { row: DeliveryDispatchRow },
    /// Close the order (delivered) and store the run, completed.
    CloseOrder { order_id: u128, restaurant_id: u128, row: DeliveryDispatchRow },
    /// A benign no-op.
    Skip(String),
}

impl DispatchTrackHooks {
    /// A partner accepted the job: the run is accepted.
    pub fn on_accepted(&self, delivery_job_id: u128, run: Option<DeliveryDispatchRow>) -> (r: Result<DispatchTrack, DomainError>)
        ensures
            run is None ==> r is Err && r->Err_0.rejected_code() == Some("DeliveryJobNotFound"@),
            run matches Some(row) ==> r == Ok::<DispatchTrack, DomainError>(DispatchTrack::Advance {
                row: DeliveryDispatchRow { process_status: DeliveryDispatchProcessStatus::Accepted, ..row },
            }),
    {
        match run {
            None => Err(job_not_found(delivery_job_id)),
            Some(row) => Ok(DispatchTrack::Advance {
                row: DeliveryDispatchRow { process_status: DeliveryDispatchProcessStatus::Accepted, ..row },
            }),
        }
    }

    /// A partner status: delivered closes the order and completes the run; any other status is a
    /// benign skip.
    pub fn on_status(&self, delivery_job_id: u128, run: Option<DeliveryDispatchRow>, status: DeliveryStatus)
        -> (r: Result<DispatchTrack, DomainError>)
        ensures
            run is None ==> r is Err && r->Err_0.rejected_code() == Some("DeliveryJobNotFound"@),
            run matches Some(row) ==> if status == DeliveryStatus::Delivered {
                r == Ok::<DispatchTrack, DomainError>(DispatchTrack::CloseOrder {
                    order_id: row.order_id,
                    restaurant_id: row.restaurant_id,
                    row: DeliveryDispatchRow { process_status: DeliveryDispatchProcessStatus::Completed, ..row },
                })
            } else {
                r matches Ok(t) && t is Skip
            },
    {
        match run {
            None => Err(job_not_found(delivery_job_id)),
            Some(row) => {
                if status == DeliveryStatus::Delivered {
                    Ok(DispatchTrack::CloseOrder {
                        order_id: row.order_id,
                        restaurant_id: row.restaurant_id,
                        row: DeliveryDispatchRow { process_status: DeliveryDispatchProcessStatus::Completed, ..row },
                    })
                } else {
                    Ok(DispatchTrack::Skip(String::from_str("an intermediate delivery status — nothing to close")))
                }
            }
        }
    }
}

/// The status a delivery must be in for the partner's `to` status to be recorded directly.
pub fn canonical_predecessor(to: DeliveryStatus) -> (from: DeliveryStatus)
    ensures
        (to == DeliveryStatus::Pending || to == DeliveryStatus::Assigned || to == DeliveryStatus::Cancelled
            || to == DeliveryStatus::Failed) ==> from == DeliveryStatus::Pending,
        to == DeliveryStatus::PickedUp ==> from == DeliveryStatus::Assigned,
        (to == DeliveryStatus::OutForDelivery || to == DeliveryStatus::Delivered) ==> from == DeliveryStatus::PickedUp,
{
    match to {
        DeliveryStatus::Pending | DeliveryStatus::Assigned | DeliveryStatus::Cancelled | DeliveryStatus::Failed => DeliveryStatus::Pending,
        DeliveryStatus::PickedUp => DeliveryStatus::Assigned,
        DeliveryStatus::OutForDelivery | DeliveryStatus::Delivered => DeliveryStatus::PickedUp,
    }
}

/// The run an advance stores (the run itself for a skip).
pub open spec fn advanced_row(a: DispatchAdvance, row: DeliveryDispatchRow) -> DeliveryDispatchRow {
    match a {
        DispatchAdvance::Reoffer { row: next, .. } => next,
        DispatchAdvance::Fail { row: next, .. } => next,
        DispatchAdvance::Skip(_) => row,
    }
}

/// The advance leg of a partner's decline (an offer timeout and an escalation take the same walk):
/// a decline for a job no run knows is `DeliveryJobNotFound`; a run no longer offered is a benign
/// skip, with no plan read and nothing offered; otherwise the restaurant's plan is resolved through
/// `strategy` (a failed read answers its error), the walk advances (`advance_dispatch`), and a
/// re-offer is made to the partner through `partner` before the stepped run is handed back to be
/// stored — a refused offer answers the partner's error and stores nothing.
pub fn on_delivery_rejected_by_partner<R: DispatchStrategyRepository, D: DeliveryService>(strategy: &R, partner: &D,
    delivery_job_id: u128, run: Option<DeliveryDispatchRow>, birth: Option<DeliveryRequested>, reason: Option<String>)
    -> (r: Result<DispatchAdvance, DomainError>)
    requires
        run matches Some(row) ==> next_rank_spec(row) <= i32::MAX && row.offer_attempts < i32::MAX,
    ensures
        run is None ==> r is Err && r->Err_0.rejected_code() == Some("DeliveryJobNotFound"@)
            && r->Err_0.context_value("deliveryJobId"@) == Some(ContextValue::Id(delivery_job_id)),
        (run matches Some(row) && row.process_status != DeliveryDispatchProcessStatus::Offered) ==> (r matches Ok(a) && a is Skip),
        (run matches Some(row) && row.process_status == DeliveryDispatchProcessStatus::Offered) ==>
            exists|p: Result<DispatchPlan, DomainError>| #[trigger] plan_answer(strategy, run->0.restaurant_id, p) && match p {
                Err(e) => r == Err::<DispatchAdvance, DomainError>(e),
                Ok(plan) => exists|a: Result<DispatchAdvance, DomainError>| #[trigger] advance_outcome(run->0, plan, birth, reason, a)
                    && (r == a || (a matches Ok(DispatchAdvance::Reoffer { .. }) && r is Err)),
            },
{
    let row = match run {
        None => {
            return Err(job_not_found(delivery_job_id));
        }
        Some(row) => row,
    };
    if row.process_status != DeliveryDispatchProcessStatus::Offered {
        return Ok(DispatchAdvance::Skip(String::from_str("the dispatch run is no longer offered — benign re-delivery")));
    }
    let plan = match resolve_plan(strategy, row.restaurant_id) {
        Err(e) => {
            return Err(e);
        }
        Ok(p) => p,
    };
    let advanced = advance_dispatch(delivery_job_id, Some(row), &plan, birth, reason);
    match advanced {
        Ok(DispatchAdvance::Reoffer { offer, row: next }) => {
            match partner.offer_job(&offer) {
                Err(e) => Err(e),
                Ok(()) => Ok(DispatchAdvance::Reoffer { offer, row: next }),
            }
        }
        other => other,
    }
}

/// Exhausting the walk fails closed, once: from an offered run with one channel left after its
/// current rank, a decline re-offers there (one rank further, one more attempt); the next decline
/// finds no channel left and fails the dispatch with the attempts made and its reason; any decline
/// after that is a benign skip — no third offer, no second failure.
pub proof fn law_exhausting_the_walk_fails_closed(row: DeliveryDispatchRow, plan: DispatchPlan,
    birth: Option<DeliveryRequested>, reason: Option<String>, r1: Result<DispatchAdvance, DomainError>,
    r2: Result<DispatchAdvance, DomainError>, r3: Result<DispatchAdvance, DomainError>)
    requires
        row.process_status == DeliveryDispatchProcessStatus::Offered,
        next_rank_spec(row) < i32::MAX,
        row.offer_attempts < i32::MAX - 1,
        channel_at_spec(plan, next_rank_spec(row) as i32) is Some,
        channel_at_spec(plan, (next_rank_spec(row) + 1) as i32) is None,
        birth is Some,
        advance_outcome(row, plan, birth, reason, r1),
        r1 is Ok ==> advance_outcome(advanced_row(r1->Ok_0, row), plan, birth, reason, r2),
        r2 is Ok ==> advance_outcome(advanced_row(r2->Ok_0, row), plan, birth, reason, r3),
    ensures
        r1 matches Ok(DispatchAdvance::Reoffer { row: next, .. })
            && next.current_rank == Some(next_rank_spec(row) as i32)
            && next.offer_attempts == row.offer_attempts + 1,
        r2 matches Ok(DispatchAdvance::Fail { failed, row: failed_row })
            && failed.attempts == row.offer_attempts + 1
            && failed.last_reason == reason
            && failed_row.process_status == DeliveryDispatchProcessStatus::Failed,
        r3 matches Ok(a) && a is Skip,
{
    let next = advanced_row(r1->Ok_0, row);
    assert(next_rank_spec(next) == next_rank_spec(row) + 1);
}

/// The walk never regresses a decided run: once a run is no longer offered, every further decline,
/// timeout or escalation is a benign skip — nothing is offered and nothing fails a second time.
pub proof fn law_decided_run_is_never_advanced(row: DeliveryDispatchRow, plan: DispatchPlan,
    birth: Option<DeliveryRequested>, reason: Option<String>, r: Result<DispatchAdvance, DomainError>)
    requires
        row.process_status != DeliveryDispatchProcessStatus::Offered,
        advance_outcome(row, plan, birth, reason, r),
    ensures
        r matches Ok(a) && a is Skip,
{
}

/// Each re-offer walks exactly one rank further and counts exactly one more attempt; a walk that
/// has no channel ranked after the current one fails closed instead of offering.
pub proof fn law_walk_steps_one_rank(row: DeliveryDispatchRow, plan: DispatchPlan,
    birth: Option<DeliveryRequested>, reason: Option<String>, r: Result<DispatchAdvance, DomainError>)
    requires
        row.process_status == DeliveryDispatchProcessStatus::Offered,
        next_rank_spec(row) <= i32::MAX,
        row.offer_attempts < i32::MAX,
        advance_outcome(row, plan, birth, reason, r),
    ensures
        r matches Ok(DispatchAdvance::Reoffer { offer, row: next }) ==> next.current_rank == Some(next_rank_spec(row) as i32)
            && next.offer_attempts == row.offer_attempts + 1
            && next.process_status == DeliveryDispatchProcessStatus::Offered
            && channel_at_spec(plan, next_rank_spec(row) as i32) == Some(offer.channel),
        channel_at_spec(plan, next_rank_spec(row) as i32) is None ==> (r matches Ok(DispatchAdvance::Fail { row: failed_row, .. })
            && failed_row.process_status == DeliveryDispatchProcessStatus::Failed),
{
}

} // verus!
