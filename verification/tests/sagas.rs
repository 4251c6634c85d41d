use application::cart_binding::{open_carts_of, CartBindingHooks, OpenCartsRead};
use application::checkout::{CheckoutSnapshot, ServiceType, ServiceWindowVerdict};
use application::commands::{
    record_order_acceptance_timeout, canonical_phone, create_if_absent, creation_outcome, is_valid_iso4217, parked_session,
    phone_verified, record_decision, resolved_customer, rotation_after_stamp,
    verify_phone_leg, verify_phone_outcome, AcceptanceTimeoutOutcome, Created, EventStore, PhoneVerified,
    RecordOutcome, RotatedSession, VerifyPhoneOutcome,
};
use application::restaurants::{update_restaurant, RestaurantUpdate};
use application::deliveries::{delivery_job_of, record_inbound_delivery_event, DeliveryFact, DeliveryJobView};
use application::delivery_dispatch::{
    advance_dispatch, build_delivery_requested, on_delivery_rejected_by_partner, DeliveryOfferJobInput, canonical_predecessor, delivery_job_id_for, open_current_channel,
    open_current_rank, open_offer, open_process_status, restaurant_address, Address, DeliveryRequested, DeliveryService,
    DeliveryStatus, DispatchAdvance, DispatchTrack, DispatchTrackHooks, NoopDeliveryService, RestaurantAddressFact,
};
use application::dispatch::{
    completion_of, dedup_verdict, dispatch_journaled, CommandJournalStatus, JournalInsertOutcome, JournaledOutcome,
};
use application::dispatch_strategy::{
    resolve_plan, DispatchPlan, DispatchStrategyRepository, RankedChannel, RestaurantDispatch, RestaurantDispatchMode,
};
use application::errors::{rejection_code, ContextField, ContextValue, DomainError};
use application::mailbox::{
    InboundMessageStatus, Mailbox, MailboxEntry, MailboxInsertOutcome, MailboxScheduleOutcome, MemMailbox,
};
use application::model::{zero_breakdown, Money};
use application::payment_legs::{
    after_capture, capture_failed, capture_failure_to_record, classify_capture_error, on_payment_captured, payment_run_check, resolved_run, CaptureFailureReason,
    SettlementHooks,
};
use application::pm_state::{
    CartBindingRow, CartBindingStateStore, DeliveryDispatchProcessStatus, DeliveryDispatchRow, DeliveryDispatchStateStore,
    MemCartBindingState, MemDeliveryDispatchState, MemPaymentProcessState, MemRefundProcessState, PaymentProcessRow,
    PaymentProcessStateStore, PaymentProcessStatus, PaymentStatus, RefundProcessRow, RefundProcessStateStore,
    RefundProcessStatus,
};
use application::ports::version_conflict;
use application::process_managers::{
    cart_stream, order_stream, saga_actor, saga_system_user_id, HookOutcome, Outcome, TriggerEnvelope,
};
use application::read_models::{CartReadRepository, CartRow, OrderReadRepository, OrderTrackingRow};
use application::refunds::{
    admit_only_pending, credit_branch, refund_resolution, replacement_order_id_for, replacement_outcome,
    resolution_route, ApproveRefund, PlaceReplacementOrder, ReclamationResolution, ReclamationResolved,
    RefundDecisionHooks, RefundOpenHooks, RefundResolution, ResolutionRoute,
};

fn eur(cents: i64) -> Money {
    Money { amount_cents: cents, currency: "EUR".into() }
}

fn context_of(err: &DomainError, key: &str) -> Option<ContextValue> {
    match err {
        DomainError::Rejected { context, .. } => context.iter().find(|f: &&ContextField| f.key == key).map(|f| f.value.clone()),
        _ => None,
    }
}

// ---- Process-manager state stores --------------------------------------------------------------

fn payment_row(cart: u128, intent: &str) -> PaymentProcessRow {
    PaymentProcessRow {
        cart_id: cart,
        order_id: cart + 1000,
        payment_intent_id: intent.into(),
        process_status: PaymentProcessStatus::AwaitingPaymentResult,
        payment_status: PaymentStatus::Pending,
        customer_id: None,
        session_id: None,
        client_secret: Some("pi_secret".into()),
        last_processed_stripe_event_id: None,
        last_update_utc: i64::MIN,
    }
}

#[test]
fn mem_payment_store_upserts_and_correlates_by_intent() {
    let mut store = MemPaymentProcessState::new();
    let cart = 0xCA27;
    store.upsert(&payment_row(cart, "pi_1")).unwrap();
    let by_cart = store.by_cart(cart).unwrap().unwrap();
    assert_eq!(by_cart.payment_intent_id, "pi_1");
    assert!(by_cart.last_update_utc > i64::MIN, "the store stamped the row (its own value is ignored)");
    let by_intent = store.by_payment_intent(&"pi_1".to_string()).unwrap().unwrap();
    assert_eq!(by_intent.cart_id, cart);
    assert!(store.by_cart(0xBEEF).unwrap().is_none());
    assert_eq!(store.by_order(cart + 1000).unwrap().unwrap().cart_id, cart);

    let mut second = payment_row(cart, "pi_1");
    second.process_status = PaymentProcessStatus::OrderPlaced;
    second.payment_status = PaymentStatus::Captured;
    store.upsert(&second).unwrap();
    let replaced = store.by_cart(cart).unwrap().unwrap();
    assert_eq!(replaced.process_status, PaymentProcessStatus::OrderPlaced);
    assert!(store.by_payment_intent(&"pi_2".to_string()).unwrap().is_none());
}

#[test]
fn mem_dispatch_store_finds_by_order_and_job() {
    let mut store = MemDeliveryDispatchState::new();
    let row = DeliveryDispatchRow {
        order_id: 1,
        restaurant_id: 3,
        delivery_job_id: 0x10B,
        process_status: DeliveryDispatchProcessStatus::Offered,
        offer_attempts: 1,
        current_rank: Some(1),
        current_channel: Some("independent".into()),
        last_update_utc: 0,
    };
    store.upsert(&row).unwrap();
    assert!(store.by_order(1).unwrap().is_some());
    assert_eq!(store.by_job(0x10B).unwrap().unwrap().order_id, 1);
    assert!(store.by_job(0xBAD).unwrap().is_none());
}

#[test]
fn mem_refund_and_binding_stores_replace_by_key() {
    let mut refunds = MemRefundProcessState::new();
    let row = RefundProcessRow {
        order_id: 1,
        payment_intent_id: Some("pi_1".into()),
        refund_id: None,
        process_status: RefundProcessStatus::PendingApproval,
        approved_amount_cents: None,
        reason: None,
        last_update_utc: 0,
    };
    refunds.upsert(&row).unwrap();
    refunds.upsert(&RefundProcessRow { process_status: RefundProcessStatus::Denied, ..row.clone() }).unwrap();
    assert_eq!(refunds.by_order(1).unwrap().unwrap().process_status, RefundProcessStatus::Denied);
    let mut bindings = MemCartBindingState::new();
    bindings.upsert(&CartBindingRow { session_id: 9, customer_id: 7, last_update_utc: 0 }).unwrap();
    assert_eq!(bindings.by_session(9).unwrap().unwrap().customer_id, 7);
    assert!(bindings.by_session(8).unwrap().is_none());
}

// ---- Mailbox ------------------------------------------------------------------------------------

fn entry(message_id: u128, payload: &str) -> MailboxEntry {
    MailboxEntry {
        message_id,
        kind: "MESSAGE".into(),
        actor_type: "Order".into(),
        actor_id: 0x0AD1,
        partition: 0,
        message_type: "OrderExpired".into(),
        payload_hash: application::journal::payload_hash(payload),
        payload: payload.into(),
        channel: "WORKER".into(),
        user_id: None,
        user_type: "EXTERNAL".into(),
        correlation_id: 0xC0,
        cause_id: None,
        session_id: None,
        trace_id: None,
        source: None,
        external_id: None,
    }
}

#[test]
fn mem_schedule_reschedules_in_place_while_scheduled() {
    let mut mailbox = MemMailbox::new();
    let first = entry(0x5EED, "{\"eventType\":\"OrderExpired\"}");
    assert_eq!(mailbox.schedule(&first, 1000).unwrap(), MailboxScheduleOutcome::Scheduled);
    let second = entry(0x5EED, "{\"eventType\":\"OrderExpired\",\"window\":\"P2Y\"}");
    assert_eq!(mailbox.schedule(&second, 2000).unwrap(), MailboxScheduleOutcome::Rescheduled);
    assert_eq!(mailbox.entries().len(), 1, "one pending occurrence per (actor, purpose)");
    assert_eq!(mailbox.scheduled_at(first.message_id), Some(2000));
    assert_eq!(mailbox.entry(first.message_id).unwrap().payload_hash, second.payload_hash);
}

#[test]
fn mem_spent_rows_are_duplicates_and_cancel_is_scheduled_only() {
    let mut mailbox = MemMailbox::new();
    let e = entry(0x5EED, "{\"eventType\":\"OrderExpired\"}");
    assert_eq!(mailbox.insert(&e).unwrap(), MailboxInsertOutcome::Inserted);
    match mailbox.schedule(&e, 0).unwrap() {
        MailboxScheduleOutcome::Duplicate { status, .. } => assert_eq!(status, InboundMessageStatus::Received),
        other => panic!("expected Duplicate, got {other:?}"),
    }
    assert!(!mailbox.cancel_scheduled(e.message_id).unwrap(), "RECEIVED is not cancellable");
    let scheduled = entry(0x5EED2, "{}");
    mailbox.schedule(&scheduled, 0).unwrap();
    assert!(mailbox.cancel_scheduled(scheduled.message_id).unwrap());
    assert!(!mailbox.cancel_scheduled(scheduled.message_id).unwrap(), "already CANCELLED");
    assert_eq!(mailbox.by_message(scheduled.message_id).unwrap().unwrap().status, InboundMessageStatus::Cancelled);
}

#[test]
fn a_second_insert_is_a_duplicate_and_insert_many_reports_the_new_ones() {
    let mut mailbox = MemMailbox::instantly_delivered();
    let e = entry(1, "{}");
    assert_eq!(mailbox.insert(&e).unwrap(), MailboxInsertOutcome::Inserted);
    assert_eq!(
        mailbox.insert(&e).unwrap(),
        MailboxInsertOutcome::Duplicate { status: InboundMessageStatus::Succeeded, payload_hash: e.payload_hash.clone() }
    );
    let ids = application::mailbox::insert_many(&mut mailbox, &vec![entry(1, "{}"), entry(2, "{}"), entry(3, "{}")]).unwrap();
    assert_eq!(ids, vec![2, 3]);
    assert!(mailbox.by_message(4).unwrap().is_none());
}

// ---- Journaled dispatch ---------------------------------------------------------------------------

#[test]
fn journaled_dispatch_runs_once_unless_the_run_failed() {
    let hash = "h1".to_string();
    assert!(dedup_verdict(JournalInsertOutcome::Inserted, &hash).is_none());
    assert_eq!(
        dedup_verdict(JournalInsertOutcome::Duplicate { status: CommandJournalStatus::Succeeded, payload_hash: hash.clone() }, &hash),
        Some(JournaledOutcome::Deduplicated(CommandJournalStatus::Succeeded))
    );
    assert!(dedup_verdict(JournalInsertOutcome::Duplicate { status: CommandJournalStatus::Failed, payload_hash: hash.clone() }, &hash).is_none());
    assert_eq!(
        dedup_verdict(JournalInsertOutcome::Duplicate { status: CommandJournalStatus::Rejected, payload_hash: "h2".into() }, &hash),
        Some(JournaledOutcome::PayloadConflict { existing_status: CommandJournalStatus::Rejected })
    );
}

#[test]
fn a_completion_records_the_status_and_the_code() {
    let (status, error) = completion_of(&Ok(()), false, "Internal");
    assert_eq!(status, CommandJournalStatus::Succeeded);
    assert!(error.is_none());
    let rejected = Err(DomainError::Rejected {
        code: "CatalogNotFound".into(),
        context: vec![ContextField { key: "catalogId".into(), value: ContextValue::Text("c1".into()) }],
    });
    let (status, error) = completion_of(&rejected, false, "Internal");
    assert_eq!(status, CommandJournalStatus::Rejected);
    let error = error.unwrap();
    assert_eq!(error.code, "CatalogNotFound");
    assert_eq!(error.context.len(), 1);
    let (status, error) = completion_of(&Err(DomainError::Invariant("CartEmpty: no lines".into())), true, "Internal");
    assert_eq!(status, CommandJournalStatus::Rejected);
    assert_eq!(error.unwrap().code, "CartEmpty");
    let (status, error) = completion_of(&Err(DomainError::Invariant("Weird: thing".into())), false, "Internal");
    assert_eq!(status, CommandJournalStatus::Failed);
    assert_eq!(error.unwrap().code, "Internal");
    let (status, _) = completion_of(&Err(DomainError::Repository("down".into())), true, "Internal");
    assert_eq!(status, CommandJournalStatus::Failed);
}

// ---- Checkout saga: payment outcomes ----------------------------------------------------------

fn snapshot() -> CheckoutSnapshot {
    CheckoutSnapshot {
        order_id: 1,
        cart_id: 2,
        restaurant_id: 3,
        customer_id: 4,
        test_mode: false,
        customer_contact: "Johnny".into(),
        service_type: ServiceType::Delivery,
        delivery_address: None,
        items: Vec::new(),
        total_amount: eur(1960),
        breakdown: zero_breakdown(&"EUR".to_string()),
        note: None,
        verdict: ServiceWindowVerdict::Open,
        window_from: None,
        window_to: None,
        timezone: None,
        evaluated_at: "2026-08-14T17:00:00Z".into(),
    }
}

#[test]
fn payment_captured_places_order_and_closes_cart() {
    let row = PaymentProcessRow { cart_id: 2, order_id: 1, ..payment_row(2, "pi_123") };
    let checked = payment_run_check(&"pi_123".to_string(), Some(row.clone())).unwrap();
    assert_eq!(checked, HookOutcome::Ready(row.clone()));
    let row2 = row.clone();
    let fx = on_payment_captured(row, Some(snapshot()), false, true, 0xEE).unwrap();
    let placed = fx.order_placed.expect("the order is born");
    assert_eq!(placed.order_id, 1);
    assert_eq!(placed.total_amount, eur(1960));
    assert_eq!(placed.payment_intent_id.as_deref(), Some("pi_123"));
    assert_eq!(fx.cart_checked_out.map(|c| (c.cart_id, c.order_id)), Some((2, 1)));
    assert_eq!(placed.restaurant_id, 3);
    assert_eq!(placed.customer_id, Some(4));
    assert_eq!(placed.customer_contact, "Johnny");
    assert_eq!(placed.service_type, ServiceType::Delivery);
    assert_eq!(placed.delivery_address, None);
    assert_eq!(placed.breakdown, snapshot().breakdown);
    assert!(!placed.test_mode && placed.replacement_of.is_none() && placed.external_ref.is_none());
    assert_eq!(fx.run.payment_status, PaymentStatus::Captured);
    assert_eq!(fx.run.process_status, PaymentProcessStatus::OrderPlaced);
    assert_eq!(fx.run.last_processed_stripe_event_id, Some(uuid::Uuid::from_u128(0xEE).to_string()));
    assert_eq!((fx.run.customer_id, fx.run.session_id, fx.run.client_secret.clone()), (row2.customer_id, row2.session_id, row2.client_secret.clone()));
    assert_eq!(fx.run.last_update_utc, row2.last_update_utc);
}

#[test]
fn payment_captured_re_delivery_is_a_benign_skip() {
    let done = PaymentProcessRow { process_status: PaymentProcessStatus::OrderPlaced, ..payment_row(2, "pi_123") };
    match payment_run_check(&"pi_123".to_string(), Some(done)) {
        Ok(HookOutcome::Skip(m)) => {
            assert!(m.contains("already resolved"), "unexpected: {m}");
            assert_eq!(m, "checkout run for intent pi_123 is already resolved (ORDER_PLACED) — benign Stripe re-delivery");
        }
        other => panic!("expected the benign skip, got {other:?}"),
    }
    let replay = on_payment_captured(payment_row(2, "pi_123"), Some(snapshot()), true, false, 0xEE).unwrap();
    assert!(replay.order_placed.is_none() && replay.cart_checked_out.is_none());
}

#[test]
fn orphan_capture_is_flagged_with_the_typed_error() {
    let err = payment_run_check(&"pi_orphan".to_string(), None).unwrap_err();
    assert_eq!(rejection_code(&err), Some("PaymentEventOrphaned".into()));
    assert_eq!(context_of(&err, "paymentIntentId"), Some(ContextValue::Text("pi_orphan".into())));
}

#[test]
fn capture_with_a_run_but_no_payment_stream_is_flagged() {
    let err = on_payment_captured(payment_row(2, "pi_123"), None, false, true, 0xEE).unwrap_err();
    assert_eq!(rejection_code(&err), Some("PaymentEventOrphaned".into()));
}

#[test]
fn payment_failed_places_nothing_and_keeps_the_cart_open() {
    let failed = resolved_run(payment_row(2, "pi_123"), false, 0xEF);
    assert_eq!(failed.payment_status, PaymentStatus::Failed);
    assert_eq!(failed.process_status, PaymentProcessStatus::Failed);
    assert_eq!(failed.cart_id, 2);
}

// ---- Settlement ------------------------------------------------------------------------------

struct FakeOrders {
    row: Option<OrderTrackingRow>,
}

impl OrderReadRepository for FakeOrders {
    fn by_id(&self, order_id: u128) -> Result<Option<OrderTrackingRow>, DomainError> {
        Ok(self.row.clone().filter(|r| r.order_id == order_id))
    }
}

fn tracking_row(payment_status: &str, intent: Option<&str>) -> OrderTrackingRow {
    OrderTrackingRow {
        order_id: 1,
        restaurant_id: 3,
        payment_status: payment_status.into(),
        total_amount_cents: 1960,
        currency: "EUR".into(),
        payment_intent_id: intent.map(|i| i.to_string()),
    }
}

#[test]
fn delivered_authorized_order_requests_the_capture() {
    let orders = FakeOrders { row: Some(tracking_row("AUTHORIZED", Some("pi_123"))) };
    let mut hooks = SettlementHooks::new(&orders);
    assert!(hooks.attempted_intent().is_none());
    assert!(matches!(hooks.load_order(1).unwrap(), HookOutcome::Ready(r) if r.payment_status == "AUTHORIZED"));
    assert!(hooks.attempted_intent().is_none(), "reading attempts nothing");
    match hooks.capture_input() {
        HookOutcome::Ready(input) => assert_eq!(input.payment_intent_id, "pi_123"),
        other => panic!("expected the capture input, got {other:?}"),
    }
    assert_eq!(hooks.attempted_intent().as_deref(), Some("pi_123"));
}

#[test]
fn settlement_requests_the_capture_only_for_an_authorized_hold() {
    let orders = FakeOrders { row: Some(tracking_row("AUTHORIZED", Some("pi_123"))) };
    let mut hooks = SettlementHooks::new(&orders);
    match hooks.settlement_request(1).unwrap() {
        HookOutcome::Ready(input) => assert_eq!(input.payment_intent_id, "pi_123"),
        other => panic!("expected the capture input, got {other:?}"),
    }
    assert_eq!(hooks.attempted_intent().as_deref(), Some("pi_123"));
    for status in ["CAPTURED", "RELEASED", "PENDING"] {
        let orders = FakeOrders { row: Some(tracking_row(status, Some("pi_123"))) };
        let mut hooks = SettlementHooks::new(&orders);
        match hooks.settlement_request(1).unwrap() {
            HookOutcome::Skip(reason) => assert!(reason.contains("not AUTHORIZED"), "unexpected: {reason}"),
            other => panic!("expected a skip for {status}, got {other:?}"),
        }
        assert!(hooks.attempted_intent().is_none(), "the gateway is never asked for {status}");
    }
    let none = FakeOrders { row: None };
    let mut hooks = SettlementHooks::new(&none);
    assert!(matches!(hooks.settlement_request(1).unwrap(), HookOutcome::Skip(_)));
    assert!(hooks.attempted_intent().is_none());
    let unpaid = FakeOrders { row: Some(tracking_row("AUTHORIZED", None)) };
    let mut hooks = SettlementHooks::new(&unpaid);
    assert!(matches!(hooks.settlement_request(1).unwrap(), HookOutcome::Skip(_)));
    assert!(hooks.attempted_intent().is_none());
}

#[test]
fn capture_failure_is_recorded_once_on_a_born_stream() {
    let declined = DomainError::Invariant("PaymentDeclined: (HTTP 402) Your card was declined.".into());
    let fact = capture_failure_to_record(Some("pi_123".into()), &declined, 1, 3, Some(false)).expect("recorded");
    assert_eq!(fact.payment_intent_id, "pi_123");
    assert_eq!((fact.order_id, fact.restaurant_id), (1, 3));
    assert_eq!(fact.reason, CaptureFailureReason::CardDeclined);
    let down = DomainError::Repository("gateway timeout".into());
    assert_eq!(
        capture_failure_to_record(Some("pi_123".into()), &down, 1, 3, Some(false)).map(|f| f.reason),
        Some(CaptureFailureReason::GatewayUnavailable)
    );
    assert!(capture_failure_to_record(Some("pi_123".into()), &declined, 1, 3, Some(true)).is_none(), "the fold already records it");
    assert!(capture_failure_to_record(None, &down, 1, 3, Some(false)).is_none(), "a read error records nothing");
    assert!(capture_failure_to_record(Some("pi_123".into()), &down, 1, 3, None).is_some(), "a birthless stream still records");
}

#[test]
fn non_authorized_or_unpaid_orders_are_benign_skips() {
    let none = FakeOrders { row: None };
    assert!(matches!(SettlementHooks::new(&none).load_order(1).unwrap(), HookOutcome::Skip(_)));
    let unpaid = FakeOrders { row: Some(tracking_row("PENDING", None)) };
    assert!(matches!(SettlementHooks::new(&unpaid).load_order(1).unwrap(), HookOutcome::Skip(_)));
}

#[test]
fn declined_capture_records_the_typed_failure_and_stays_loud() {
    let declined = application::ports::payment_declined(Some(402), "Your card was declined.");
    let fact = capture_failed("pi_123".into(), 1, 3, &declined);
    assert_eq!(fact.reason, CaptureFailureReason::CardDeclined);
    assert_eq!(fact.order_id, 1);
    assert_eq!(fact.detail.as_deref(), Some("PaymentDeclined: (HTTP 402) Your card was declined."));
    let rejected = DomainError::Rejected { code: "PaymentDeclined".into(), context: vec![] };
    assert_eq!(classify_capture_error(&rejected).0, CaptureFailureReason::CardDeclined);
    let expired = DomainError::Invariant("authorization expired at the issuer".into());
    assert_eq!(classify_capture_error(&expired).0, CaptureFailureReason::AuthorizationExpired);
    let cancelled = DomainError::Invariant("the intent was canceled".into());
    assert_eq!(classify_capture_error(&cancelled).0, CaptureFailureReason::AuthorizationExpired);
    let refused = application::ports::payment_gateway_refused(Some(400), "bad request");
    assert_eq!(classify_capture_error(&refused).0, CaptureFailureReason::GatewayRefused);
}

#[test]
fn transient_capture_failure_is_classified_gateway_unavailable() {
    let (reason, detail) = classify_capture_error(&DomainError::Repository("timeout".into()));
    assert_eq!(reason, CaptureFailureReason::GatewayUnavailable);
    assert_eq!(detail, "timeout");
    let long = DomainError::Repository("x".repeat(600));
    assert_eq!(classify_capture_error(&long).1.chars().count(), 500);
}

#[test]
fn rejection_releases_the_authorized_hold_and_skips_after_capture() {
    let orders = FakeOrders { row: Some(tracking_row("AUTHORIZED", Some("pi_123"))) };
    let mut hooks = SettlementHooks::new(&orders);
    hooks.load_order(1).unwrap();
    match hooks.release_input() {
        HookOutcome::Ready(input) => assert_eq!(input.payment_intent_id, "pi_123"),
        other => panic!("expected the release input, got {other:?}"),
    }
}

// ---- Refunds and claim resolutions ------------------------------------------------------------

fn refund_row(status: RefundProcessStatus, intent: Option<&str>) -> RefundProcessRow {
    RefundProcessRow {
        order_id: 1,
        payment_intent_id: intent.map(|i| i.to_string()),
        refund_id: None,
        process_status: status,
        approved_amount_cents: None,
        reason: None,
        last_update_utc: 0,
    }
}

#[test]
fn reopening_a_decided_run_is_skipped() {
    assert!(admit_only_pending(&refund_row(RefundProcessStatus::PendingApproval, None)).is_none());
    assert!(admit_only_pending(&refund_row(RefundProcessStatus::Denied, None)).is_some());
    assert!(admit_only_pending(&refund_row(RefundProcessStatus::Refunded, None)).is_some());
    let orders = FakeOrders { row: Some(tracking_row("CAPTURED", Some("pi_123"))) };
    let hooks = RefundOpenHooks { orders: &orders };
    assert!(hooks.admission_refusal(&refund_row(RefundProcessStatus::ApprovedAwaitingSettlement, None)).is_some());
    match hooks.load_order(1).unwrap() {
        HookOutcome::Ready(read) => {
            assert_eq!(read.total_amount, eur(1960));
            assert_eq!(read.payment_intent_id.as_deref(), Some("pi_123"));
        }
        other => panic!("expected the order read, got {other:?}"),
    }
    assert!(matches!(hooks.load_order(2).unwrap(), HookOutcome::Skip(_)));
}

#[test]
fn decision_without_a_pending_run_is_rejected() {
    let cmd = ApproveRefund { order_id: 1, amount: eur(500), reason: None };
    let err = RefundDecisionHooks.input_payment_refund(&cmd, &refund_row(RefundProcessStatus::PendingApproval, None)).unwrap_err();
    assert_eq!(rejection_code(&err), Some("RefundNotPending".into()));
    match RefundDecisionHooks.input_payment_refund(&cmd, &refund_row(RefundProcessStatus::PendingApproval, Some("pi_123"))).unwrap() {
        HookOutcome::Ready(input) => {
            assert_eq!(input.payment_intent_id, "pi_123");
            assert_eq!(input.amount, eur(500));
        }
        other => panic!("expected the refund input, got {other:?}"),
    }
}

fn resolved(resolution: ReclamationResolution, amount: Option<Money>) -> ReclamationResolved {
    ReclamationResolved {
        reclamation_id: 0xC1A1,
        order_id: 1,
        customer_id: 4,
        resolution,
        refund_amount: amount,
        note: Some("cold food".into()),
    }
}

#[test]
fn full_refund_settles_the_captured_total() {
    let r = refund_resolution(&resolved(ReclamationResolution::FullRefund, None), Some(tracking_row("CAPTURED", Some("pi_123")))).unwrap();
    match r {
        RefundResolution::Open { opened, approve } => {
            assert_eq!(opened.restaurant_id, 3);
            assert_eq!(opened.customer_id, Some(4));
            assert_eq!(opened.reason.as_deref(), Some("cold food"));
            assert_eq!(approve.amount, eur(1960));
        }
        other => panic!("expected the refund to open, got {other:?}"),
    }
}

#[test]
fn partial_refund_settles_the_recorded_amount() {
    let r = refund_resolution(&resolved(ReclamationResolution::PartialRefund, Some(eur(500))), Some(tracking_row("CAPTURED", None))).unwrap();
    assert!(matches!(r, RefundResolution::Open { approve, .. } if approve.amount == eur(500)));
}

#[test]
fn partial_refund_over_captured_is_rejected() {
    let err = refund_resolution(&resolved(ReclamationResolution::PartialRefund, Some(eur(5000))), Some(tracking_row("CAPTURED", None))).unwrap_err();
    assert_eq!(rejection_code(&err), Some("RefundExceedsCaptured".into()));
    assert_eq!(context_of(&err, "requestedAmountCents"), Some(ContextValue::Int(5000)));
    assert_eq!(context_of(&err, "capturedAmountCents"), Some(ContextValue::Int(1960)));
    let usd = Money { amount_cents: 100, currency: "USD".into() };
    assert!(refund_resolution(&resolved(ReclamationResolution::PartialRefund, Some(usd)), Some(tracking_row("CAPTURED", None))).is_err());
}

#[test]
fn refund_with_nothing_captured_skips() {
    let full = resolved(ReclamationResolution::FullRefund, None);
    assert!(matches!(refund_resolution(&full, None).unwrap(), RefundResolution::Skip(_)));
    assert!(matches!(refund_resolution(&full, Some(tracking_row("AUTHORIZED", None))).unwrap(), RefundResolution::Skip(_)));
    let nothing = resolved(ReclamationResolution::PartialRefund, Some(eur(0)));
    assert!(matches!(refund_resolution(&nothing, Some(tracking_row("CAPTURED", None))).unwrap(), RefundResolution::Skip(_)));
    let no_amount = resolved(ReclamationResolution::PartialRefund, None);
    assert!(matches!(refund_resolution(&no_amount, Some(tracking_row("CAPTURED", None))).unwrap(), RefundResolution::Skip(_)));
}

fn skip_reason(r: Result<RefundResolution, DomainError>) -> String {
    match r {
        Ok(RefundResolution::Skip(m)) => m,
        other => panic!("expected a skip, got {other:?}"),
    }
}

#[test]
fn refund_skips_name_the_order_or_the_claim() {
    let order = uuid::Uuid::from_u128(1);
    let claim = uuid::Uuid::from_u128(0xC1A1);
    let full = resolved(ReclamationResolution::FullRefund, None);
    assert_eq!(
        skip_reason(refund_resolution(&full, None)),
        format!("order {order} is not in the OrderTracking read model — nothing captured to refund")
    );
    assert_eq!(
        skip_reason(refund_resolution(&full, Some(tracking_row("AUTHORIZED", None)))),
        format!("order {order} payment_status is \"AUTHORIZED\", not CAPTURED — nothing to refund")
    );
    assert_eq!(
        skip_reason(refund_resolution(&resolved(ReclamationResolution::PartialRefund, None), Some(tracking_row("CAPTURED", None)))),
        format!("PARTIAL_REFUND resolution for reclamation {claim} carries no amount — no-op")
    );
    assert_eq!(
        skip_reason(refund_resolution(&resolved(ReclamationResolution::PartialRefund, Some(eur(0))), Some(tracking_row("CAPTURED", None)))),
        format!("refund amount for reclamation {claim} is not positive — no-op")
    );
    assert_eq!(
        skip_reason(refund_resolution(&resolved(ReclamationResolution::GoodwillCredit, None), Some(tracking_row("CAPTURED", None)))),
        "resolution GOODWILL_CREDIT is not a refund — no-op"
    );
}

fn uuid_v5_of(url: &str, id: u128) -> u128 {
    let ns = uuid::Uuid::new_v5(&uuid::Uuid::NAMESPACE_URL, url.as_bytes());
    uuid::Uuid::new_v5(&ns, uuid::Uuid::from_u128(id).as_bytes()).as_u128()
}

#[test]
fn replacement_places_a_no_charge_linked_order() {
    let event = resolved(ReclamationResolution::Replacement, None);
    let expected = uuid_v5_of("https://captain.food/process-managers/reclamation-replacement", 0xC1A1);
    assert_eq!(replacement_order_id_for(0xC1A1), expected);
    assert_ne!(replacement_order_id_for(0xC1A1), 0xC1A1);
    assert_eq!(replacement_order_id_for(0xC1A1), replacement_order_id_for(0xC1A1), "a re-delivery re-targets the same order");
    assert_eq!(
        resolution_route(&event),
        ResolutionRoute::Replacement(PlaceReplacementOrder { order_id: expected, original_order_id: 1, reclamation_id: 0xC1A1 })
    );
    assert_eq!(replacement_outcome(Ok(())), Ok(Outcome::Completed));
}

#[test]
fn replacement_with_missing_original_is_skipped() {
    let missing = DomainError::Rejected { code: "OrderNotFound".into(), context: vec![] };
    assert_eq!(
        replacement_outcome(Err(missing)),
        Ok(Outcome::Skipped("PlaceReplacementOrder rejected: OrderNotFound — the Order aggregate's invariants stand; skipped".into()))
    );
    let clash = version_conflict("Order-1", 0);
    assert_eq!(replacement_outcome(Err(clash.clone())), Err(clash));
    let fault = DomainError::Repository("db down".into());
    assert_eq!(replacement_outcome(Err(fault.clone())), Err(fault));
}

#[test]
fn goodwill_credit_grants_store_credit() {
    let event = resolved(ReclamationResolution::GoodwillCredit, Some(eur(500)));
    assert_eq!(resolution_route(&event), ResolutionRoute::Credit);
    assert!(credit_branch(&event));
    assert!(!credit_branch(&resolved(ReclamationResolution::GoodwillCredit, None)));
    assert_eq!(resolution_route(&resolved(ReclamationResolution::FullRefund, None)), ResolutionRoute::Refund);
}

// ---- Delivery dispatch ------------------------------------------------------------------------

fn address(line1: &str) -> Address {
    Address { line1: line1.into(), line2: None, postal_code: "37000".into(), city: "Tours".into(), country: "FR".into() }
}

fn plan(mode: RestaurantDispatchMode) -> DispatchPlan {
    DispatchPlan {
        mode,
        ranked: vec![
            RankedChannel { rank: 1, channel: "independent".into(), ttl_override_seconds: None },
            RankedChannel { rank: 2, channel: "uber_direct".into(), ttl_override_seconds: Some(120) },
        ],
    }
}

fn job() -> DeliveryRequested {
    match build_delivery_requested(1, 3, Some(address("9 Rue Colbert")), Some(address("1 Rue Nationale")), false) {
        HookOutcome::Ready(j) => j,
        other => panic!("expected the job, got {other:?}"),
    }
}

fn offered_row() -> DeliveryDispatchRow {
    DeliveryDispatchRow {
        order_id: 1,
        restaurant_id: 3,
        delivery_job_id: delivery_job_id_for(1),
        process_status: DeliveryDispatchProcessStatus::Offered,
        offer_attempts: 1,
        current_rank: Some(1),
        current_channel: Some("independent".into()),
        last_update_utc: 0,
    }
}

#[test]
fn ready_delivery_order_offers_rank1_and_opens_offered() {
    let j = job();
    assert_eq!(j.delivery_job_id, uuid_v5_of("https://captain.food/process-managers/delivery-dispatch", 1));
    assert_eq!(j.pickup, address("1 Rue Nationale"));
    assert_eq!(j.dropoff, address("9 Rue Colbert"));
    let p = plan(RestaurantDispatchMode::Captain);
    assert_eq!(open_process_status(&p), DeliveryDispatchProcessStatus::Offered);
    assert_eq!(open_current_rank(&p), Some(1));
    assert_eq!(open_current_channel(&p).as_deref(), Some("independent"));
    match open_offer(&p, j) {
        HookOutcome::Ready(input) => assert_eq!(input.channel, "independent"),
        other => panic!("expected the rank-1 offer, got {other:?}"),
    }
    assert_eq!(NoopDeliveryService.offer_job(&application::delivery_dispatch::DeliveryOfferJobInput { job: job(), channel: "independent".into() }), Ok(()));
}

#[test]
fn self_dispatched_order_creates_job_but_offers_nothing() {
    let p = DispatchPlan { mode: RestaurantDispatchMode::Restaurant, ranked: vec![] };
    assert_eq!(open_process_status(&p), DeliveryDispatchProcessStatus::SelfDispatched);
    assert_eq!(open_current_rank(&p), None);
    assert_eq!(open_current_channel(&p), None);
    assert!(matches!(open_offer(&p, job()), HookOutcome::Skip(_)));
    let empty_city = DispatchPlan { mode: RestaurantDispatchMode::Captain, ranked: vec![] };
    assert!(matches!(open_offer(&empty_city, job()), HookOutcome::Skip(_)));
    assert_eq!(open_current_rank(&empty_city), None);
}

#[test]
fn a_missing_address_skips_the_dispatch() {
    assert!(matches!(build_delivery_requested(1, 3, None, Some(address("x")), false), HookOutcome::Skip(_)));
    assert!(matches!(build_delivery_requested(1, 3, Some(address("x")), None, false), HookOutcome::Skip(_)));
    let facts = vec![
        RestaurantAddressFact::Registered { address: address("1 Rue Nationale") },
        RestaurantAddressFact::Other,
        RestaurantAddressFact::Updated { address: None },
    ];
    assert_eq!(restaurant_address(&facts), Some(address("1 Rue Nationale")));
    let moved = vec![
        RestaurantAddressFact::Registered { address: address("1 Rue Nationale") },
        RestaurantAddressFact::Updated { address: Some(address("2 Place Plum")) },
    ];
    assert_eq!(restaurant_address(&moved), Some(address("2 Place Plum")));
    assert_eq!(restaurant_address(&vec![]), None);
}

#[test]
fn decline_walks_to_the_next_ranked_channel() {
    let p = plan(RestaurantDispatchMode::Captain);
    match advance_dispatch(delivery_job_id_for(1), Some(offered_row()), &p, Some(job()), Some("No courier".into())).unwrap() {
        DispatchAdvance::Reoffer { offer, row } => {
            assert_eq!(offer.channel, "uber_direct");
            assert_eq!(row.process_status, DeliveryDispatchProcessStatus::Offered);
            assert_eq!(row.offer_attempts, 2);
            assert_eq!(row.current_rank, Some(2));
            assert_eq!(row.current_channel.as_deref(), Some("uber_direct"));
        }
        other => panic!("expected a re-offer, got {other:?}"),
    }
}

#[test]
fn exhausting_the_walk_fails_the_dispatch_closed() {
    let p = plan(RestaurantDispatchMode::Captain);
    let second = DeliveryDispatchRow { offer_attempts: 2, current_rank: Some(2), current_channel: Some("uber_direct".into()), ..offered_row() };
    match advance_dispatch(delivery_job_id_for(1), Some(second), &p, Some(job()), Some("Storm — no couriers tonight".into())).unwrap() {
        DispatchAdvance::Fail { failed, row } => {
            assert_eq!(failed.order_id, 1);
            assert_eq!(failed.attempts, 2);
            assert_eq!(failed.last_reason.as_deref(), Some("Storm — no couriers tonight"));
            assert_eq!(row.process_status, DeliveryDispatchProcessStatus::Failed);
            let again = advance_dispatch(delivery_job_id_for(1), Some(row), &p, Some(job()), Some("No courier".into())).unwrap();
            assert!(matches!(again, DispatchAdvance::Skip(_)));
        }
        other => panic!("expected the dispatch to fail, got {other:?}"),
    }
}

#[test]
fn unknown_job_is_flagged_with_the_typed_error() {
    let p = plan(RestaurantDispatchMode::Captain);
    let err = advance_dispatch(0xBAD, None, &p, None, None).unwrap_err();
    assert_eq!(rejection_code(&err), Some("DeliveryJobNotFound".into()));
    assert_eq!(context_of(&err, "deliveryJobId"), Some(ContextValue::Id(0xBAD)));
    let err = DispatchTrackHooks.on_accepted(0xBAD, None).unwrap_err();
    assert_eq!(rejection_code(&err), Some("DeliveryJobNotFound".into()));
}

#[test]
fn partner_acceptance_advances_the_run() {
    match DispatchTrackHooks.on_accepted(delivery_job_id_for(1), Some(offered_row())).unwrap() {
        DispatchTrack::Advance { row } => assert_eq!(row.process_status, DeliveryDispatchProcessStatus::Accepted),
        other => panic!("expected the run to advance, got {other:?}"),
    }
}

#[test]
fn partner_delivered_status_closes_the_order() {
    match DispatchTrackHooks.on_status(delivery_job_id_for(1), Some(offered_row()), DeliveryStatus::Delivered).unwrap() {
        DispatchTrack::CloseOrder { order_id, restaurant_id, row } => {
            assert_eq!((order_id, restaurant_id), (1, 3));
            assert_eq!(row.process_status, DeliveryDispatchProcessStatus::Completed);
        }
        other => panic!("expected the order to close, got {other:?}"),
    }
    assert!(matches!(DispatchTrackHooks.on_status(1, Some(offered_row()), DeliveryStatus::PickedUp).unwrap(), DispatchTrack::Skip(_)));
    assert_eq!(canonical_predecessor(DeliveryStatus::Delivered), DeliveryStatus::PickedUp);
    assert_eq!(canonical_predecessor(DeliveryStatus::PickedUp), DeliveryStatus::Assigned);
    assert_eq!(canonical_predecessor(DeliveryStatus::Cancelled), DeliveryStatus::Pending);
}

struct FakeStrategy {
    mode: RestaurantDispatchMode,
    ranked_reads: std::cell::Cell<usize>,
}

impl DispatchStrategyRepository for FakeStrategy {
    fn restaurant_dispatch(&self, _restaurant_id: u128) -> Result<RestaurantDispatch, DomainError> {
        Ok(RestaurantDispatch { mode: self.mode, city_id: Some(37) })
    }
    fn ranked_channels(&self, _city_id: Option<u128>) -> Result<Vec<RankedChannel>, DomainError> {
        self.ranked_reads.set(self.ranked_reads.get() + 1);
        Ok(plan(RestaurantDispatchMode::Captain).ranked)
    }
    fn channel_default_ttl_seconds(&self, _channel: &String) -> Result<Option<i32>, DomainError> {
        Ok(None)
    }
}

#[test]
fn a_self_dispatching_restaurant_never_reads_channels() {
    let own = FakeStrategy { mode: RestaurantDispatchMode::Restaurant, ranked_reads: std::cell::Cell::new(0) };
    let p = resolve_plan(&own, 3).unwrap();
    assert!(p.is_self_dispatched());
    assert!(p.ranked.is_empty());
    assert_eq!(own.ranked_reads.get(), 0);
    let captain = FakeStrategy { mode: RestaurantDispatchMode::Captain, ranked_reads: std::cell::Cell::new(0) };
    let p = resolve_plan(&captain, 3).unwrap();
    assert_eq!(p.channel_at(2).as_deref(), Some("uber_direct"));
    assert_eq!(p.entry_at(2).unwrap().ttl_override_seconds, Some(120));
    assert_eq!(p.channel_at(3), None);
}

// ---- Inbound delivery facts ---------------------------------------------------------------------

#[test]
fn acceptance_records_once_and_absorbs_redelivery() {
    let job = Some(DeliveryJobView { assigned: true, partner_ref: Some("avelo-77".into()), status: DeliveryStatus::Assigned });
    let accepted = DeliveryFact::AcceptedByPartner { delivery_job_id: 1, partner_ref: "avelo-77".into() };
    assert_eq!(delivery_job_of(&accepted), 1);
    assert_eq!(record_inbound_delivery_event(&accepted, &job, true, false), Ok(Some(RecordOutcome::AlreadyRecorded)));
    let fresh = Some(DeliveryJobView { assigned: false, partner_ref: None, status: DeliveryStatus::Pending });
    assert_eq!(record_inbound_delivery_event(&accepted, &fresh, true, false), Ok(None));
}

#[test]
fn status_report_applies_as_a_valid_transition_and_dedupes_on_status() {
    let job = Some(DeliveryJobView { assigned: true, partner_ref: None, status: DeliveryStatus::PickedUp });
    let same = DeliveryFact::StatusUpdated { delivery_job_id: 1, status: DeliveryStatus::PickedUp };
    assert_eq!(record_inbound_delivery_event(&same, &job, false, false), Ok(Some(RecordOutcome::AlreadyRecorded)));
    let next = DeliveryFact::StatusUpdated { delivery_job_id: 1, status: DeliveryStatus::Delivered };
    assert_eq!(record_inbound_delivery_event(&next, &job, true, false), Ok(None));
}

#[test]
fn illegal_status_report_is_rejected_not_recorded() {
    // DELIVERED straight from PENDING is not a declared edge of the machine.
    let job = Some(DeliveryJobView { assigned: false, partner_ref: None, status: DeliveryStatus::Pending });
    let delivered = DeliveryFact::StatusUpdated { delivery_job_id: 1, status: DeliveryStatus::Delivered };
    match record_inbound_delivery_event(&delivered, &job, false, false) {
        Err(DomainError::Repository(msg)) => {
            assert!(msg.contains("cannot legally apply"), "unexpected: {msg}");
            assert_eq!(
                msg,
                format!(
                    "inbound DeliveryStatusUpdated cannot legally apply to job {} in status PENDING (partner out of sync; row kept for ops)",
                    uuid::Uuid::from_u128(1)
                )
            );
        }
        other => panic!("expected the refusal, got {other:?}"),
    }
}

#[test]
fn an_out_of_sync_acceptance_names_the_job_and_its_status() {
    let job = Some(DeliveryJobView { assigned: false, partner_ref: None, status: DeliveryStatus::Cancelled });
    let accepted = DeliveryFact::AcceptedByPartner { delivery_job_id: 0xAB, partner_ref: "avelo-77".into() };
    match record_inbound_delivery_event(&accepted, &job, false, false) {
        Err(DomainError::Repository(msg)) => assert_eq!(
            msg,
            format!(
                "inbound DeliveryAcceptedByPartner cannot legally apply to job {} in status CANCELLED (partner out of sync; row kept for ops)",
                uuid::Uuid::from_u128(0xAB)
            )
        ),
        other => panic!("expected the refusal, got {other:?}"),
    }
}

#[test]
fn every_rejection_is_recorded_even_when_identical() {
    let job = Some(DeliveryJobView { assigned: false, partner_ref: None, status: DeliveryStatus::Pending });
    let declined = DeliveryFact::RejectedByPartner { delivery_job_id: 1 };
    assert_eq!(record_inbound_delivery_event(&declined, &job, false, true), Ok(None));
}

#[test]
fn orphan_fact_is_recorded_and_redelivery_absorbed_structurally() {
    let declined = DeliveryFact::RejectedByPartner { delivery_job_id: 1 };
    assert_eq!(record_inbound_delivery_event(&declined, &None, false, false), Ok(None));
    assert_eq!(record_inbound_delivery_event(&declined, &None, false, true), Ok(Some(RecordOutcome::AlreadyRecorded)));
    assert_eq!(record_decision(Some(true), false), Some(RecordOutcome::AlreadyRecorded));
    assert_eq!(record_decision(Some(false), true), None);
    assert_eq!(record_decision(None, true), Some(RecordOutcome::AlreadyRecorded));
}

// ---- Commands -------------------------------------------------------------------------------

/// An in-memory event store: the version is the number of facts on the stream.
#[derive(Default)]
struct MemStore {
    streams: std::collections::HashMap<String, Vec<u8>>,
}

impl EventStore<u8> for MemStore {
    fn load(&self, stream_name: &str) -> Result<(Vec<u8>, i64), DomainError> {
        let events = self.streams.get(stream_name).cloned().unwrap_or_default();
        let version = events.len() as i64;
        Ok((events, version))
    }
    fn append(&mut self, stream_name: &str, expected_version: i64, events: Vec<u8>, _actor: &application::process_managers::Actor) -> Result<i64, DomainError> {
        let stream = self.streams.entry(stream_name.to_string()).or_default();
        if stream.len() as i64 != expected_version {
            return Err(version_conflict(stream_name, expected_version));
        }
        stream.extend(events);
        Ok(stream.len() as i64)
    }
}

fn envelope() -> TriggerEnvelope {
    TriggerEnvelope::unlaned(0xEE, 0xCC, 0)
}

#[test]
fn reports_whether_it_actually_created() {
    let mut store = MemStore::default();
    let actor = saga_actor(&envelope());
    assert_eq!(create_if_absent(&mut store, "Customer-1", vec![1], &actor), Ok(Created::Yes));
    assert_eq!(create_if_absent(&mut store, "Customer-1", vec![2], &actor), Ok(Created::No));
    assert_eq!(store.streams["Customer-1"], vec![1]);
    assert_eq!(creation_outcome(Err(version_conflict("Customer-1", 0))), Ok(Created::No));
    assert_eq!(creation_outcome(Err(DomainError::Repository("down".into()))), Err(DomainError::Repository("down".into())));
}

#[test]
fn a_no_op_appends_nothing() {
    let mut store = MemStore::default();
    store.streams.insert("Order-1".into(), vec![7, 8]);
    let actor = saga_actor(&envelope());
    assert_eq!(create_if_absent(&mut store, "Order-1", vec![9], &actor), Ok(Created::No));
    assert_eq!(store.streams["Order-1"], vec![7, 8]);
}

#[test]
fn the_saga_acts_as_the_system_user_caused_by_its_trigger() {
    let actor = saga_actor(&envelope());
    let expected = uuid::Uuid::new_v5(&uuid::Uuid::NAMESPACE_URL, b"https://captain.food/process-managers").as_u128();
    assert_eq!(saga_system_user_id(), expected);
    assert_eq!(actor.user_id, expected);
    assert_eq!(actor.user_type, "EXTERNAL");
    assert_eq!(actor.correlation_id, 0xCC);
    assert_eq!(actor.cause_id, Some(0xEE));
    assert_eq!(order_stream(1), format!("Order-{}", uuid::Uuid::from_u128(1)));
    assert_eq!(cart_stream(2), "Cart-00000000-0000-0000-0000-000000000002");
    assert!(envelope().same_trigger(&TriggerEnvelope::unlaned(0xEE, 0xCC, 0)));
    assert!(!envelope().same_trigger(&TriggerEnvelope::unlaned(0xEE, 0xCC, 1)));
}

#[test]
fn the_acceptance_deadline_cancels_only_a_still_placed_order() {
    assert_eq!(record_order_acceptance_timeout(true, Some(true), true), AcceptanceTimeoutOutcome::AlreadyTimedOut);
    assert_eq!(record_order_acceptance_timeout(false, None, true), AcceptanceTimeoutOutcome::NoOrder);
    assert_eq!(record_order_acceptance_timeout(false, Some(false), true), AcceptanceTimeoutOutcome::NotPlaced);
    assert_eq!(record_order_acceptance_timeout(false, Some(true), false), AcceptanceTimeoutOutcome::WouldCancel);
    assert_eq!(record_order_acceptance_timeout(false, Some(true), true), AcceptanceTimeoutOutcome::Cancelled);
}

#[test]
fn shape_checks() {
    assert!(is_valid_iso4217("EUR"));
    assert!(!is_valid_iso4217("EURO"));
    assert!(!is_valid_iso4217("eur"));
    assert!(!is_valid_iso4217("E1R"));
    assert_eq!(canonical_phone("+33", "0612345678"), "+33612345678");
    assert_eq!(canonical_phone("+33", "00612"), "+33612");
    assert_eq!(canonical_phone("+1", "5551234"), "+15551234");
    assert_eq!(canonical_phone("+33", "000"), "+33");
}

#[test]
fn parked_token_carries_the_stamped_customer_claim() {
    assert_eq!(resolved_customer(Some(5), 9), 5);
    assert_eq!(resolved_customer(None, 9), 9);
    assert_eq!(rotation_after_stamp(true, Some("refresh".into()), Some(0x51)), Some(("refresh".to_string(), 0x51)));
    assert_eq!(rotation_after_stamp(false, Some("refresh".into()), Some(0x51)), None, "an unstamped token is never parked");
    assert_eq!(rotation_after_stamp(true, None, Some(0x51)), None);
    assert_eq!(rotation_after_stamp(true, Some("refresh".into()), None), None);
    let p = parked_session(0x51, 0x5E55, RotatedSession { access_token: "jwt".into(), refresh_token: Some("r2".into()), expires_in: Some(3600) });
    assert_eq!(p.message_id, 0x51);
    assert_eq!(p.session_id, Some(0x5E55));
    assert_eq!(p.access_token, "jwt");
    assert_eq!(
        phone_verified(Some(5), 9, "auth".into(), 0x5E55, "+33612345678".into(), None, None, None),
        PhoneVerified::CustomerIdentified { customer_id: 5, auth_ref: "auth".into(), session_id: 0x5E55 }
    );
    assert!(matches!(
        phone_verified(None, 9, "auth".into(), 0x5E55, "+33612345678".into(), None, Some("fr".into()), None),
        PhoneVerified::CustomerRegistered { customer_id: 9, email: None, .. }
    ));
    assert_eq!(verify_phone_outcome(Some(5), 9, Created::Yes), VerifyPhoneOutcome { customer_id: 5, created: false });
    assert_eq!(verify_phone_outcome(None, 9, Created::No), VerifyPhoneOutcome { customer_id: 9, created: false });
    assert_eq!(verify_phone_outcome(None, 9, Created::Yes), VerifyPhoneOutcome { customer_id: 9, created: true });
}

fn no_edit() -> RestaurantUpdate {
    RestaurantUpdate {
        restaurant_id: 3,
        display_name: None,
        description: Some("only a description".into()),
        contact: None,
        website: None,
        tags: vec![],
        margin_rate: None,
        cuisine_category: None,
        uber_prices_opt_in: None,
        address: None,
        location: None,
        timezone: None,
        preparation_time_minutes: None,
        opening_hours: vec![],
    }
}

#[test]
fn an_update_needs_an_editable_field() {
    let err = update_restaurant(no_edit()).unwrap_err();
    assert_eq!(rejection_code(&err), Some("NoEditableFieldProvided".into()));
    let renamed = RestaurantUpdate { display_name: Some("Pizzaroma".into()), ..no_edit() };
    assert_eq!(update_restaurant(renamed.clone()), Ok(renamed));
    let tagged = RestaurantUpdate { tags: vec!["pizza".into()], ..no_edit() };
    assert!(update_restaurant(tagged).is_ok());
}

// ---- Cart binding ---------------------------------------------------------------------------

struct FakeCarts {
    open: Vec<CartRow>,
}

impl CartReadRepository for FakeCarts {
    fn open_by_session(&self, session_id: u128) -> Result<Vec<CartRow>, DomainError> {
        Ok(self.open.iter().filter(|c| c.session_id == session_id).cloned().collect())
    }
}

#[test]
fn open_carts_are_bound_and_the_binding_is_recorded() {
    let carts = FakeCarts {
        open: vec![
            CartRow { cart_id: 1, restaurant_id: 3, session_id: 9, customer_id: None },
            CartRow { cart_id: 2, restaurant_id: 3, session_id: 8, customer_id: None },
            CartRow { cart_id: 3, restaurant_id: 4, session_id: 9, customer_id: None },
        ],
    };
    let hooks = CartBindingHooks { carts: &carts };
    assert_eq!(hooks.read_open_carts(9).unwrap(), vec![OpenCartsRead { cart_id: 1 }, OpenCartsRead { cart_id: 3 }]);
    assert!(hooks.read_open_carts(7).unwrap().is_empty());
    assert_eq!(open_carts_of(&carts.open).len(), 3);
}

// ---- Composed legs -----------------------------------------------------------------------------

#[test]
fn a_journaled_command_reruns_only_after_failure() {
    let runs = std::cell::Cell::new(0);
    let hash = "h0".to_string();
    let catalogue = vec!["PriceMismatch".to_string()];
    let (out, completion) = dispatch_journaled(JournalInsertOutcome::Inserted, &hash, || { runs.set(runs.get() + 1); Ok(()) }, &catalogue, "Internal");
    assert_eq!(out, JournaledOutcome::Executed(Ok(())));
    assert_eq!(completion.map(|c| c.0), Some(CommandJournalStatus::Succeeded));
    let done = JournalInsertOutcome::Duplicate { status: CommandJournalStatus::Succeeded, payload_hash: "h0".into() };
    let (out, completion) = dispatch_journaled(done, &hash, || { runs.set(runs.get() + 1); Ok(()) }, &catalogue, "Internal");
    assert_eq!(out, JournaledOutcome::Deduplicated(CommandJournalStatus::Succeeded));
    assert!(completion.is_none());
    let changed = JournalInsertOutcome::Duplicate { status: CommandJournalStatus::Succeeded, payload_hash: "h1".into() };
    let (out, _) = dispatch_journaled(changed, &hash, || { runs.set(runs.get() + 1); Ok(()) }, &catalogue, "Internal");
    assert_eq!(out, JournaledOutcome::PayloadConflict { existing_status: CommandJournalStatus::Succeeded });
    assert_eq!(runs.get(), 1, "neither a re-delivery nor a conflict runs the handler");
    let failed = JournalInsertOutcome::Duplicate { status: CommandJournalStatus::Failed, payload_hash: "h0".into() };
    let (out, completion) = dispatch_journaled(failed, &hash, || {
        runs.set(runs.get() + 1);
        Err(DomainError::Invariant("PriceMismatch: total changed".into()))
    }, &catalogue, "Internal");
    assert_eq!(runs.get(), 2, "a failed run is retried");
    assert!(matches!(out, JournaledOutcome::Executed(Err(_))));
    let (status, error) = completion.expect("the same row is completed");
    assert_eq!(status, CommandJournalStatus::Rejected);
    assert_eq!(error.map(|e| e.code), Some("PriceMismatch".to_string()));
}

#[test]
fn phone_verification_stands_whatever_the_session_steps_answer() {
    let rotated = RotatedSession { access_token: "jwt".into(), refresh_token: Some("r2".into()), expires_in: Some(3600) };
    let all_ok = verify_phone_leg(None, 0xC1, "auth-1".into(), 0x5E55, "+33612345678".into(), None, None, None,
        &Ok(()), Some("r1".into()), Some(0x51), Some(Ok(rotated.clone())));
    let parked = all_ok.to_park.clone().expect("a stamped, rotated token is parked");
    assert_eq!((parked.message_id, parked.session_id, parked.access_token.as_str()), (0x51, Some(0x5E55), "jwt"));
    let stamp_failed = verify_phone_leg(None, 0xC1, "auth-1".into(), 0x5E55, "+33612345678".into(), None, None, None,
        &Err(DomainError::Repository("identity down".into())), Some("r1".into()), Some(0x51), Some(Ok(rotated)));
    assert!(stamp_failed.to_park.is_none(), "an unstamped token is never parked");
    let rotation_failed = verify_phone_leg(None, 0xC1, "auth-1".into(), 0x5E55, "+33612345678".into(), None, None, None,
        &Ok(()), Some("r1".into()), Some(0x51), Some(Err(DomainError::Repository("refresh failed".into()))));
    assert!(rotation_failed.to_park.is_none());
    assert_eq!(stamp_failed.fact, all_ok.fact);
    assert_eq!(rotation_failed.fact, all_ok.fact);
}

#[test]
fn capture_failure_answers_the_gateway_error_and_records_it() {
    let declined = DomainError::Invariant("PaymentDeclined: (HTTP 402) Your card was declined.".into());
    let (record, result) = after_capture(Some("pi_123".into()), Err(declined.clone()), 1, 3, Some(false));
    assert_eq!(result, Err(declined.clone()));
    assert_eq!(record.map(|f| f.reason), Some(CaptureFailureReason::CardDeclined));
    let (record, result) = after_capture(Some("pi_123".into()), Err(declined.clone()), 1, 3, Some(true));
    assert_eq!(result, Err(declined));
    assert!(record.is_none(), "a second identical failure records nothing more");
    let (record, result) = after_capture(Some("pi_123".into()), Ok(()), 1, 3, Some(false));
    assert!(record.is_none() && result.is_ok());
}

struct CountingPartner {
    offers: std::cell::RefCell<Vec<String>>,
}

impl DeliveryService for CountingPartner {
    fn offer_job(&self, input: &DeliveryOfferJobInput) -> Result<(), DomainError> {
        self.offers.borrow_mut().push(input.channel.clone());
        Ok(())
    }
}

#[test]
fn the_rejection_leg_exhausts_the_walk_closed() {
    let strategy = FakeStrategy { mode: RestaurantDispatchMode::Captain, ranked_reads: std::cell::Cell::new(0) };
    let partner = CountingPartner { offers: std::cell::RefCell::new(vec![]) };
    let first = on_delivery_rejected_by_partner(&strategy, &partner, delivery_job_id_for(1), Some(offered_row()), Some(job()),
        Some("No courier".into())).unwrap();
    let row = match first {
        DispatchAdvance::Reoffer { row, .. } => row,
        other => panic!("expected a re-offer, got {other:?}"),
    };
    assert_eq!((row.offer_attempts, row.current_rank, row.current_channel.as_deref()), (2, Some(2), Some("uber_direct")));
    assert_eq!(*partner.offers.borrow(), vec!["uber_direct".to_string()]);
    let second = on_delivery_rejected_by_partner(&strategy, &partner, delivery_job_id_for(1), Some(row), Some(job()),
        Some("Storm".into())).unwrap();
    let failed_row = match second {
        DispatchAdvance::Fail { failed, row } => {
            assert_eq!((failed.order_id, failed.attempts, failed.last_reason.as_deref()), (1, 2, Some("Storm")));
            row
        }
        other => panic!("expected the dispatch to fail, got {other:?}"),
    };
    assert_eq!(failed_row.process_status, DeliveryDispatchProcessStatus::Failed);
    let third = on_delivery_rejected_by_partner(&strategy, &partner, delivery_job_id_for(1), Some(failed_row), Some(job()),
        Some("No courier".into())).unwrap();
    assert!(matches!(third, DispatchAdvance::Skip(_)));
    assert_eq!(partner.offers.borrow().len(), 1, "no third offer");
    let err = on_delivery_rejected_by_partner(&strategy, &partner, 0xBAD, None, None, None).unwrap_err();
    assert_eq!(rejection_code(&err), Some("DeliveryJobNotFound".into()));
}
