//! The refund saga's hooks and the claim-resolution saga's decisions. A refund run opens only over a
//! captured order and never regresses once decided; an approval refunds the run's captured intent. A
//! resolved claim is refunded (never more than was captured), replaced by a zero-value order under a
//! name-based id derived from the claim, or credited as goodwill.

use vstd::prelude::*;
use crate::errors::{error_text, error_text_spec, reject, reject1, ContextValue, DomainError};
use crate::model::Money;
use crate::outside::{uuid_text, uuid_to_text, uuid_v5_id};
use crate::pm_state::{RefundProcessRow, RefundProcessStatus};
use crate::ports::{invariant_starts_with, is_version_conflict, VERSION_CONFLICT_PREFIX};
use crate::process_managers::{be_bytes, namespace_of, uuid_v5_of_id, HookOutcome, Outcome, NAMESPACE_URL};
use crate::read_models::{OrderReadRepository, OrderTrackingRow};
use vstd::string::StringSliceAdditionalSpecFns;

verus! {

/// What the refund legs read of an order: its payment state, captured total and intent.
#[derive(Debug, Clone, PartialEq, Eq)]
pub struct RefundOrderRead {
    pub payment_status: String,
    pub total_amount: Money,
    pub payment_intent_id: Option<String>,
}

/// The opening legs' hooks over the order read model.
pub struct RefundOpenHooks<'a, O: OrderReadRepository> {
    pub orders: &'a O,
}

/// A run already decided is never regressed to pending approval: its re-opening is refused with the
/// reason, a pending run is admitted.
pub fn admit_only_pending(existing: &RefundProcessRow) -> (r: Option<String>)
    ensures
        r is None <==> existing.process_status == RefundProcessStatus::PendingApproval,
{
    if existing.process_status != RefundProcessStatus::PendingApproval {
        Some(String::from_str("the refund run is already decided — not regressing to pending approval"))
    } else {
        None
    }
}

impl<'a, O: OrderReadRepository> RefundOpenHooks<'a, O> {
    /// Reads the order: one the read model lacks is a benign skip; otherwise its payment state, its
    /// total as the captured amount, and its intent.
    pub fn load_order(&self, order_id: u128) -> (r: Result<HookOutcome<RefundOrderRead>, DomainError>)
        ensures
            exists|a: Result<Option<OrderTrackingRow>, DomainError>| self.orders.order_answer(order_id, a) && match a {
                Err(e) => r == Err::<HookOutcome<RefundOrderRead>, DomainError>(e),
                Ok(None) => r matches Ok(h) && h is Skip,
                Ok(Some(o)) => r == Ok::<HookOutcome<RefundOrderRead>, DomainError>(HookOutcome::Ready(RefundOrderRead {
                    payment_status: o.payment_status,
                    total_amount: Money { amount_cents: o.total_amount_cents, currency: o.currency },
                    payment_intent_id: o.payment_intent_id,
                })),
            },
    {
        let found = self.orders.by_id(order_id);
        let found = match found {
            Err(e) => {
                return Err(e);
            }
            Ok(f) => f,
        };
        match found {
            None => Ok(HookOutcome::Skip(String::from_str("the order is not in the order-tracking read model — nothing captured to refund"))),
            Some(o) => Ok(HookOutcome::Ready(refund_read_of(o))),
        }
    }

    /// The admission guard of the opening legs.
    pub fn admission_refusal(&self, existing: &RefundProcessRow) -> (r: Option<String>)
        ensures
            r is None <==> existing.process_status == RefundProcessStatus::PendingApproval,
    {
        admit_only_pending(existing)
    }
}

/// What the refund legs read of a tracking row.
pub fn refund_read_of(o: OrderTrackingRow) -> (r: RefundOrderRead)
    ensures
        r.payment_status == o.payment_status,
        r.total_amount.amount_cents == o.total_amount_cents,
        r.total_amount.currency == o.currency,
        r.payment_intent_id == o.payment_intent_id,
{
    RefundOrderRead {
        payment_status: o.payment_status,
        total_amount: Money { amount_cents: o.total_amount_cents, currency: o.currency },
        payment_intent_id: o.payment_intent_id,
    }
}

/// The `ApproveRefund` command: the amount approved (possibly partial) and its reason.
#[derive(Debug, Clone, PartialEq, Eq)]
pub struct ApproveRefund {
    pub order_id: u128,
    pub amount: Money,
    pub reason: Option<String>,
}

/// What the gateway is asked to refund.
#[derive(Debug, Clone, PartialEq, Eq)]
pub struct PaymentRefundInput {
    pub payment_intent_id: String,
    pub amount: Money,
}

/// The decision legs' hooks.
pub struct RefundDecisionHooks;

impl RefundDecisionHooks {
    /// The refund asked of the gateway: the run's captured intent for the approved amount; a run
    /// without an intent is `RefundNotPending`.
    pub fn input_payment_refund(&self, cmd: &ApproveRefund, row: &RefundProcessRow)
        -> (r: Result<HookOutcome<PaymentRefundInput>, DomainError>)
        ensures
            row.payment_intent_id is None ==> r is Err && r->Err_0.rejected_code() == Some("RefundNotPending"@)
                && r->Err_0.context_value("orderId"@) == Some(ContextValue::Id(cmd.order_id)),
            row.payment_intent_id matches Some(i) ==> r == Ok::<HookOutcome<PaymentRefundInput>, DomainError>(
                HookOutcome::Ready(PaymentRefundInput { payment_intent_id: i, amount: cmd.amount })),
    {
        match &row.payment_intent_id {
            None => Err(reject1("RefundNotPending", "orderId", ContextValue::Id(cmd.order_id))),
            Some(i) => Ok(HookOutcome::Ready(PaymentRefundInput { payment_intent_id: i.clone(), amount: cmd.amount.duplicate() })),
        }
    }
}

/// The refund-queue fact recorded on the payment when a run opens.
#[derive(Debug, Clone, PartialEq, Eq)]
pub struct RefundOpened {
    pub order_id: u128,
    pub restaurant_id: u128,
    pub amount: Money,
    pub reason: Option<String>,
}

/// What an opening trigger (a rejection, a cancellation, a customer's request) does to the order's
/// refund run: a run already decided is never regressed; an order the read model lacks, or whose
/// payment was not captured, has nothing to refund; otherwise a run opens pending approval on the
/// order's intent, and the refund-queue fact names the captured total.
pub open spec fn opening_outcome(order_id: u128, restaurant_id: u128, reason: Option<String>,
    existing: Option<RefundProcessRow>, order: Option<RefundOrderRead>, r: HookOutcome<(RefundProcessRow, RefundOpened)>) -> bool
{
    if existing matches Some(row) && row.process_status != RefundProcessStatus::PendingApproval {
        r is Skip
    } else {
        match order {
            None => r is Skip,
            Some(o) => if o.payment_status@ != "CAPTURED"@ {
                r is Skip
            } else {
                r matches HookOutcome::Ready((run, fact)) && {
                    &&& run.order_id == order_id
                    &&& run.process_status == RefundProcessStatus::PendingApproval
                    &&& run.payment_intent_id == o.payment_intent_id
                    &&& run.reason == reason
                    &&& run.refund_id is None
                    &&& run.approved_amount_cents is None
                    &&& fact == (RefundOpened { order_id, restaurant_id, amount: o.total_amount, reason })
                }
            },
        }
    }
}

/// An opening leg (see `opening_outcome`).
pub fn open_refund_run(order_id: u128, restaurant_id: u128, reason: Option<String>, existing: &Option<RefundProcessRow>,
    order: Option<RefundOrderRead>) -> (r: HookOutcome<(RefundProcessRow, RefundOpened)>)
    ensures
        opening_outcome(order_id, restaurant_id, reason, *existing, order, r),
{
    if let Some(row) = existing {
        if let Some(why) = admit_only_pending(row) {
            return HookOutcome::Skip(why);
        }
    }
    match order {
        None => HookOutcome::Skip(String::from_str("the order is not in the order-tracking read model — nothing to refund")),
        Some(o) => {
            if !crate::text::same_text(&o.payment_status, "CAPTURED") {
                return HookOutcome::Skip(String::from_str("the order's payment was not captured — nothing to refund"));
            }
            let run = RefundProcessRow {
                order_id,
                payment_intent_id: o.payment_intent_id,
                refund_id: None,
                process_status: RefundProcessStatus::PendingApproval,
                approved_amount_cents: None,
                reason: crate::pm_state::copy_text(&reason),
                last_update_utc: 0,
            };
            HookOutcome::Ready((run, RefundOpened { order_id, restaurant_id, amount: o.total_amount, reason }))
        }
    }
}

/// A decided refund run never regresses: a re-delivered opening trigger is skipped once the run was
/// approved, denied or settled, and a fresh opening only ever starts pending approval.
pub proof fn law_refund_run_never_regresses(order_id: u128, restaurant_id: u128, reason: Option<String>,
    existing: Option<RefundProcessRow>, order: Option<RefundOrderRead>, r: HookOutcome<(RefundProcessRow, RefundOpened)>)
    requires
        opening_outcome(order_id, restaurant_id, reason, existing, order, r),
    ensures
        (existing matches Some(row) && row.process_status != RefundProcessStatus::PendingApproval) ==> r is Skip,
        r matches HookOutcome::Ready((run, _)) ==> run.process_status == RefundProcessStatus::PendingApproval,
{
}

/// The run a refund decision (approval or denial) acts on: the order's run while it awaits approval;
/// no run, or one already decided, is `RefundNotPending` (before any gateway call).
pub fn pending_refund_run(order_id: u128, run: Option<RefundProcessRow>) -> (r: Result<RefundProcessRow, DomainError>)
    ensures
        (run matches Some(row) && row.process_status == RefundProcessStatus::PendingApproval)
            ==> r == Ok::<RefundProcessRow, DomainError>(run->0),
        !(run matches Some(row) && row.process_status == RefundProcessStatus::PendingApproval) ==> r is Err
            && r->Err_0.rejected_code() == Some("RefundNotPending"@)
            && r->Err_0.context_value("orderId"@) == Some(ContextValue::Id(order_id)),
{
    match run {
        Some(row) => {
            if row.process_status == RefundProcessStatus::PendingApproval {
                Ok(row)
            } else {
                Err(reject1("RefundNotPending", "orderId", ContextValue::Id(order_id)))
            }
        }
        None => Err(reject1("RefundNotPending", "orderId", ContextValue::Id(order_id))),
    }
}

/// Once the gateway took the refund: the run awaits settlement, with the approved amount.
pub fn approved_run(row: RefundProcessRow, amount_cents: i64) -> (r: RefundProcessRow)
    ensures
        r == (RefundProcessRow {
            process_status: RefundProcessStatus::ApprovedAwaitingSettlement,
            approved_amount_cents: Some(amount_cents),
            ..row
        }),
{
    RefundProcessRow { process_status: RefundProcessStatus::ApprovedAwaitingSettlement, approved_amount_cents: Some(amount_cents), ..row }
}

/// A denial closes the run with its reason (no gateway call).
pub fn denied_run(row: RefundProcessRow, reason: String) -> (r: RefundProcessRow)
    ensures
        r == (RefundProcessRow { process_status: RefundProcessStatus::Denied, reason: Some(reason), ..row }),
{
    RefundProcessRow { process_status: RefundProcessStatus::Denied, reason: Some(reason), ..row }
}

/// What the settlement fact does to the order's run: an approved run awaiting settlement is closed
/// as refunded with the refund's id; anything else (no run, a re-delivered settlement, an
/// unsolicited refund) is a benign skip.
pub open spec fn settlement_outcome(run: Option<RefundProcessRow>, refund_id: String, r: HookOutcome<RefundProcessRow>) -> bool {
    if run matches Some(row) && row.process_status == RefundProcessStatus::ApprovedAwaitingSettlement {
        r == HookOutcome::Ready(RefundProcessRow {
            process_status: RefundProcessStatus::Refunded,
            refund_id: Some(refund_id),
            ..run->0
        })
    } else {
        r is Skip
    }
}

/// The settlement leg (see `settlement_outcome`).
pub fn on_payment_refunded(run: Option<RefundProcessRow>, refund_id: String) -> (r: HookOutcome<RefundProcessRow>)
    ensures
        settlement_outcome(run, refund_id, r),
{
    match run {
        Some(row) => {
            if row.process_status == RefundProcessStatus::ApprovedAwaitingSettlement {
                HookOutcome::Ready(RefundProcessRow { process_status: RefundProcessStatus::Refunded, refund_id: Some(refund_id), ..row })
            } else {
                HookOutcome::Skip(String::from_str("the refund run is not awaiting settlement — benign re-delivery"))
            }
        }
        None => HookOutcome::Skip(String::from_str("no refund run for this order — unsolicited settlement")),
    }
}

/// A refund is settled at most once: once the settlement closed the run, a re-delivered settlement
/// is skipped, and the closed run is no longer pending approval (so `pending_refund_run` refuses
/// any further approval or denial of it).
pub proof fn law_refund_settles_once(row: RefundProcessRow, refund_id: String, next: RefundProcessRow,
    again: String, replay: HookOutcome<RefundProcessRow>)
    requires
        settlement_outcome(Some(row), refund_id, HookOutcome::Ready(next)),
        settlement_outcome(Some(next), again, replay),
    ensures
        replay is Skip,
        next.process_status == RefundProcessStatus::Refunded,
        next.process_status != RefundProcessStatus::PendingApproval,
{
}

// ---------------------------------------------------------------------------------------------
// Claim resolutions
// ---------------------------------------------------------------------------------------------

/// How a claim was resolved.
#[derive(Debug, Clone, Copy, PartialEq, Eq, Structural)]
pub enum ReclamationResolution {
    FullRefund,
    PartialRefund,
    GoodwillCredit,
    Replacement,
}

/// The claim-resolution fact.
#[derive(Debug, Clone, PartialEq, Eq)]
pub struct ReclamationResolved {
    pub reclamation_id: u128,
    pub order_id: u128,
    pub customer_id: u128,
    pub resolution: ReclamationResolution,
    pub refund_amount: Option<Money>,
    pub note: Option<String>,
}

/// The URL the claim saga's replacement ids hang off.
pub open spec fn replacement_url() -> Seq<u8> {
    "https://captain.food/process-managers/reclamation-replacement".spec_bytes()
}

/// The replacement order of a claim: the name-based UUID of the claim id in the replacement
/// namespace, so a re-delivered resolution re-targets the same order.
pub fn replacement_order_id_for(reclamation_id: u128) -> (order_id: u128)
    ensures
        order_id == uuid_v5_id(uuid_v5_id(NAMESPACE_URL, replacement_url()), be_bytes(reclamation_id as nat, 16)),
{
    let ns = namespace_of("https://captain.food/process-managers/reclamation-replacement");
    uuid_v5_of_id(ns, reclamation_id)
}

/// The `PlaceReplacementOrder` command of a replacement resolution.
#[derive(Debug, Clone, PartialEq, Eq)]
pub struct PlaceReplacementOrder {
    pub order_id: u128,
    pub original_order_id: u128,
    pub reclamation_id: u128,
}

/// Which arm of the claim saga a resolution takes.
#[derive(Debug, Clone, PartialEq, Eq)]
pub enum ResolutionRoute {
    /// Place the replacement order.
    Replacement(PlaceReplacementOrder),
    /// Refund through the refund saga.
    Refund,
    /// Grant goodwill credit (the generic leg, whose branch is `credit_branch`).
    Credit,
}

/// Routes a resolution: a replacement places the claim's replacement order, a full or partial
/// refund refunds, anything else takes the credit leg.
pub fn resolution_route(event: &ReclamationResolved) -> (r: ResolutionRoute)
    ensures
        event.resolution == ReclamationResolution::Replacement ==> r == ResolutionRoute::Replacement(PlaceReplacementOrder {
            order_id: uuid_v5_id(uuid_v5_id(NAMESPACE_URL, replacement_url()), be_bytes(event.reclamation_id as nat, 16)),
            original_order_id: event.order_id,
            reclamation_id: event.reclamation_id,
        }),
        (event.resolution == ReclamationResolution::FullRefund || event.resolution == ReclamationResolution::PartialRefund)
            ==> r == ResolutionRoute::Refund,
        event.resolution == ReclamationResolution::GoodwillCredit ==> r == ResolutionRoute::Credit,
{
    match event.resolution {
        ReclamationResolution::Replacement => ResolutionRoute::Replacement(PlaceReplacementOrder {
            order_id: replacement_order_id_for(event.reclamation_id),
            original_order_id: event.order_id,
            reclamation_id: event.reclamation_id,
        }),
        ReclamationResolution::FullRefund | ReclamationResolution::PartialRefund => ResolutionRoute::Refund,
        ReclamationResolution::GoodwillCredit => ResolutionRoute::Credit,
    }
}

/// The credit leg runs only for a goodwill resolution carrying an amount.
pub fn credit_branch(event: &ReclamationResolved) -> (b: bool)
    ensures
        b == (event.resolution == ReclamationResolution::GoodwillCredit && event.refund_amount is Some),
{
    event.resolution == ReclamationResolution::GoodwillCredit && event.refund_amount.is_some()
}

/// What the replacement command's answer makes of the leg: placed (or already placed) completes;
/// an optimistic-concurrency clash or a repository fault is handed back for the runner to retry;
/// any other rejection (such as a missing original order) is a logged, benign skip.
pub fn replacement_outcome(placed: Result<(), DomainError>) -> (r: Result<Outcome, DomainError>)
    ensures
        placed is Ok ==> r == Ok::<Outcome, DomainError>(Outcome::Completed),
        placed is Err && (invariant_starts_with(placed->Err_0, VERSION_CONFLICT_PREFIX@) || placed->Err_0 is Repository)
            ==> r == Err::<Outcome, DomainError>(placed->Err_0),
        placed is Err && !(invariant_starts_with(placed->Err_0, VERSION_CONFLICT_PREFIX@) || placed->Err_0 is Repository)
            ==> (r matches Ok(Outcome::Skipped(why)) && why@ == "PlaceReplacementOrder rejected: "@
                + error_text_spec(placed->Err_0) + " — the Order aggregate's invariants stand; skipped"@),
{
    match placed {
        Ok(()) => Ok(Outcome::Completed),
        Err(e) => {
            if is_version_conflict(&e) {
                return Err(e);
            }
            match e {
                DomainError::Repository(m) => Err(DomainError::Repository(m)),
                other => {
                    let mut why = String::from_str("PlaceReplacementOrder rejected: ");
                    why.append(error_text(&other).as_str());
                    why.append(" — the Order aggregate's invariants stand; skipped");
                    Ok(Outcome::Skipped(why))
                }
            }
        }
    }
}

/// The refund the refund saga is asked to open for a resolution.
#[derive(Debug, Clone, PartialEq, Eq)]
pub struct RefundRequested {
    pub order_id: u128,
    pub restaurant_id: u128,
    pub customer_id: Option<u128>,
    pub reason: Option<String>,
}

/// What a refund resolution does.
#[derive(Debug, Clone, PartialEq, Eq)]
pub enum RefundResolution {
    /// Open the refund run with `opened` and, if freshly opened, approve `approve` at once.
    Open { opened: RefundRequested, approve: ApproveRefund },
    /// A benign no-op.
    Skip(String),
}

/// The amount a refund resolution refunds: the captured total for a full refund, the recorded
/// amount for a partial one (none when it carries none).
pub open spec fn resolution_amount(event: ReclamationResolved, captured: Money) -> Option<Money> {
    match event.resolution {
        ReclamationResolution::FullRefund => Some(captured),
        ReclamationResolution::PartialRefund => event.refund_amount,
        _ => None,
    }
}

/// The `RefundExceedsCaptured` rejection.
fn refund_exceeds_captured(event: &ReclamationResolved, requested: i64, captured: i64) -> (e: DomainError)
    ensures
        e.rejected_code() == Some("RefundExceedsCaptured"@),
        e.context_value("reclamationId"@) == Some(ContextValue::Id(event.reclamation_id)),
        e.context_value("requestedAmountCents"@) == Some(ContextValue::Int(requested)),
        e.context_value("capturedAmountCents"@) == Some(ContextValue::Int(captured)),
{
    proof {
        reveal_strlit("reclamationId");
        reveal_strlit("orderId");
        reveal_strlit("requestedAmountCents");
        reveal_strlit("capturedAmountCents");
    }
    let mut context = Vec::new();
    context.push(crate::errors::field("reclamationId", ContextValue::Id(event.reclamation_id)));
    context.push(crate::errors::field("orderId", ContextValue::Id(event.order_id)));
    context.push(crate::errors::field("requestedAmountCents", ContextValue::Int(requested)));
    context.push(crate::errors::field("capturedAmountCents", ContextValue::Int(captured)));
    let e = reject("RefundExceedsCaptured", context);
    proof {
        let c = e->context;
        assert(c@[0].key@ == "reclamationId"@);
        assert(c@[2].key@ == "requestedAmountCents"@);
        assert(c@[3].key@ == "capturedAmountCents"@);
        assert("reclamationId"@.len() == 13);
        assert("orderId"@.len() == 7);
        assert("requestedAmountCents"@.len() == 20);
        assert("capturedAmountCents"@.len() == 19);
        assert forall|i: int| 0 <= i < c@.len() && (#[trigger] c@[i]).key@ == "reclamationId"@ implies i == 0 by {
            assert(c@[i].key@.len() != 13 || i == 0);
        }
        assert forall|i: int| 0 <= i < c@.len() && (#[trigger] c@[i]).key@ == "requestedAmountCents"@ implies i == 2 by {
            assert(c@[i].key@.len() != 20 || i == 2);
        }
        assert forall|i: int| 0 <= i < c@.len() && (#[trigger] c@[i]).key@ == "capturedAmountCents"@ implies i == 3 by {
            assert(c@[i].key@.len() != 19 || i == 3);
        }
    }
    e
}

impl ReclamationResolution {
    /// The resolution's wire name.
    pub open spec fn wire_name(self) -> Seq<char> {
        match self {
            ReclamationResolution::FullRefund => "FULL_REFUND"@,
            ReclamationResolution::PartialRefund => "PARTIAL_REFUND"@,
            ReclamationResolution::GoodwillCredit => "GOODWILL_CREDIT"@,
            ReclamationResolution::Replacement => "REPLACEMENT"@,
        }
    }

    /// The resolution's wire name.
    pub fn as_str(self) -> (s: &'static str)
        ensures
            s@ == self.wire_name(),
    {
        match self {
            ReclamationResolution::FullRefund => "FULL_REFUND",
            ReclamationResolution::PartialRefund => "PARTIAL_REFUND",
            ReclamationResolution::GoodwillCredit => "GOODWILL_CREDIT",
            ReclamationResolution::Replacement => "REPLACEMENT",
        }
    }
}

/// Why a refund resolution is skipped: the order is unknown to the read model.
pub open spec fn untracked_order_reason(order_id: u128) -> Seq<char> {
    "order "@ + uuid_text(order_id) + " is not in the OrderTracking read model — nothing captured to refund"@
}

/// Why a refund resolution is skipped: the order's payment is not captured (its status quoted).
pub open spec fn uncaptured_reason(order_id: u128, payment_status: Seq<char>) -> Seq<char> {
    "order "@ + uuid_text(order_id) + " payment_status is \""@ + payment_status + "\", not CAPTURED — nothing to refund"@
}

/// Why a refund resolution is skipped: a partial refund without an amount.
pub open spec fn missing_amount_reason(reclamation_id: u128) -> Seq<char> {
    "PARTIAL_REFUND resolution for reclamation "@ + uuid_text(reclamation_id) + " carries no amount — no-op"@
}

/// Why a refund resolution is skipped: nothing positive to refund.
pub open spec fn non_positive_reason(reclamation_id: u128) -> Seq<char> {
    "refund amount for reclamation "@ + uuid_text(reclamation_id) + " is not positive — no-op"@
}

/// Why a resolution is skipped by the refund arm: it is no refund.
pub open spec fn not_a_refund_reason(resolution: ReclamationResolution) -> Seq<char> {
    "resolution "@ + resolution.wire_name() + " is not a refund — no-op"@
}

/// `r` is the benign skip with reason `reason`.
pub open spec fn skipped_with(r: Result<RefundResolution, DomainError>, reason: Seq<char>) -> bool {
    r matches Ok(RefundResolution::Skip(m)) && m@ == reason
}

/// What a claim resolution answers on the refund arm, given the order's tracking row.
pub open spec fn refund_resolution_outcome(event: ReclamationResolved, order: Option<OrderTrackingRow>,
    r: Result<RefundResolution, DomainError>) -> bool
{
    match order {
        None => skipped_with(r, untracked_order_reason(event.order_id)),
        Some(o) => if o.payment_status@ != "CAPTURED"@ {
            skipped_with(r, uncaptured_reason(event.order_id, o.payment_status@))
        } else if event.resolution != ReclamationResolution::FullRefund
            && event.resolution != ReclamationResolution::PartialRefund {
            skipped_with(r, not_a_refund_reason(event.resolution))
        } else {
            let captured = Money { amount_cents: o.total_amount_cents, currency: o.currency };
            match resolution_amount(event, captured) {
                None => skipped_with(r, missing_amount_reason(event.reclamation_id)),
                Some(amount) => if amount.amount_cents <= 0 {
                    skipped_with(r, non_positive_reason(event.reclamation_id))
                } else if amount.currency@ != o.currency@ || amount.amount_cents > o.total_amount_cents {
                    r is Err && r->Err_0.rejected_code() == Some("RefundExceedsCaptured"@)
                        && r->Err_0.context_value("requestedAmountCents"@) == Some(ContextValue::Int(amount.amount_cents))
                        && r->Err_0.context_value("capturedAmountCents"@) == Some(ContextValue::Int(o.total_amount_cents))
                } else {
                    r == Ok::<RefundResolution, DomainError>(RefundResolution::Open {
                        opened: RefundRequested {
                            order_id: event.order_id,
                            restaurant_id: o.restaurant_id,
                            customer_id: Some(event.customer_id),
                            reason: event.note,
                        },
                        approve: ApproveRefund { order_id: event.order_id, amount, reason: event.note },
                    })
                },
            }
        },
    }
}

/// `prefix`, the id's UUID text, then `suffix`.
fn id_text(prefix: &str, id: u128, suffix: &str) -> (s: String)
    ensures
        s@ == prefix@ + uuid_text(id) + suffix@,
{
    let mut s = String::from_str(prefix);
    let id_text = uuid_to_text(id);
    s.append(id_text.as_str());
    s.append(suffix);
    s
}

/// The refund arm of a claim resolution. The order unknown to the read model, its payment not
/// captured, a resolution that is no refund, a partial refund without an amount, or nothing
/// positive to refund is a benign skip saying so. The amount is never more than was captured, and
/// in the captured currency — else `RefundExceedsCaptured`, before any gateway call. Otherwise the
/// refund saga is asked to open the run (for the order's restaurant, the claimant, with the claim's
/// note as reason) and to approve the amount.
pub fn refund_resolution(event: &ReclamationResolved, order: Option<OrderTrackingRow>)
    -> (r: Result<RefundResolution, DomainError>)
    ensures
        refund_resolution_outcome(*event, order, r),
{
    let o = match order {
        None => {
            return Ok(RefundResolution::Skip(id_text("order ", event.order_id,
                " is not in the OrderTracking read model — nothing captured to refund")));
        }
        Some(o) => o,
    };
    if !same_status(&o.payment_status, "CAPTURED") {
        let mut m = id_text("order ", event.order_id, " payment_status is \"");
        m.append(o.payment_status.as_str());
        m.append("\", not CAPTURED — nothing to refund");
        return Ok(RefundResolution::Skip(m));
    }
    let amount = match event.resolution {
        ReclamationResolution::FullRefund => Money { amount_cents: o.total_amount_cents, currency: o.currency.clone() },
        ReclamationResolution::PartialRefund => match &event.refund_amount {
            Some(a) => a.duplicate(),
            None => {
                return Ok(RefundResolution::Skip(id_text("PARTIAL_REFUND resolution for reclamation ",
                    event.reclamation_id, " carries no amount — no-op")));
            }
        },
        other => {
            let mut m = String::from_str("resolution ");
            m.append(other.as_str());
            m.append(" is not a refund — no-op");
            return Ok(RefundResolution::Skip(m));
        }
    };
    if amount.amount_cents <= 0 {
        return Ok(RefundResolution::Skip(id_text("refund amount for reclamation ", event.reclamation_id,
            " is not positive — no-op")));
    }
    if amount.currency != o.currency || amount.amount_cents > o.total_amount_cents {
        return Err(refund_exceeds_captured(event, amount.amount_cents, o.total_amount_cents));
    }
    let reason = crate::pm_state::copy_text(&event.note);
    let opened = RefundRequested {
        order_id: event.order_id,
        restaurant_id: o.restaurant_id,
        customer_id: Some(event.customer_id),
        reason: crate::pm_state::copy_text(&event.note),
    };
    Ok(RefundResolution::Open { opened, approve: ApproveRefund { order_id: event.order_id, amount, reason } })
}

/// Whether a status text is exactly `lit`.
fn same_status(s: &String, lit: &str) -> (b: bool)
    ensures
        b == (s@ == lit@),
{
    let c = crate::text::chars_of(s.as_str());
    let l = crate::text::chars_of(lit);
    if c.len() != l.len() {
        return false;
    }
    let p = crate::text::vec_starts_with(&c, lit);
    assert(c@.subrange(0, lit@.len() as int) =~= c@);
    p
}

/// A claim is never refunded more than its order captured: whenever a refund resolution goes ahead,
/// the approved amount is positive, in the captured currency, and at most the captured total.
pub proof fn law_refund_capped_at_captured(event: ReclamationResolved, o: OrderTrackingRow,
    r: Result<RefundResolution, DomainError>)
    requires
        refund_resolution_outcome(event, Some(o), r),
        r matches Ok(RefundResolution::Open { .. }),
    ensures
        r matches Ok(RefundResolution::Open { approve, .. }) && 0 < approve.amount.amount_cents <= o.total_amount_cents
            && approve.amount.currency@ == o.currency@,
{
}

} // verus!
