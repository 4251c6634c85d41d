use application::catalogs::{
    add_catalog_category, add_option_list, add_product, configure_catalog_slug, catalog_slug_changes, ensure_refs_unique,
    ensure_prices_use_restaurant_currency, import_catalog, remove_catalog_category, remove_option_list, require_catalog,
    require_offer, require_product, update_catalog_category, update_option_list, update_product, CatalogState,
    CategoryView, ImportedProduct, OfferInput, OptionListInput, OptionListView, RestaurantCurrency,
};
use application::cart::{CartEvent, CartState, CartStatus};
use application::cart_binding::on_customer_identified;
use application::checkout::{OrderAcceptanceMode, RestaurantStatus};
use application::commands::RecordOutcome;
use application::conversations::{
    mute_participant, open_conversation, post_message, MessagePosted, record_message_translation, require_conversation,
    unmute_participant, ConversationState, PostMessage, PostRequires,
};
use application::customers::{
    mark_restaurant_as_favorite, remove_customer_address, request_email_verification, require_phone_free, stored_locale,
    unmark_restaurant_as_favorite, update_customer_info, CustomerState,
};
use application::delivery_dispatch::DeliveryStatus;
use application::delivery_jobs::{
    accept_delivery, cancel_delivery, complete_delivery, confirm_pickup, decline_delivery, invalid_delivery_status,
    report_delivery_issue, require_delivery_job, resolve_delivery_issue, unassign_delivery_from_partner,
    DeliveryJobEvent, DeliveryJobState,
};
use application::errors::{rejection_code, ContextField, ContextValue, DomainError};
use application::mailbox::{requeue_mailbox_message, RequeueOutcome};
use application::model::Money;
use application::orders::{
    rate_order, rate_restaurant, record_delivery_satisfaction, record_inbound_order_event, record_inbound_order_placed,
    request_refund, require_order, tip_order, OrderState, OrderTipped, Tip, Tipper,
};
use application::payment_legs::{on_payment_failed, payment_not_recorded};
use application::pm_state::{PaymentProcessRow, PaymentProcessStatus, PaymentStatus, RefundProcessRow, RefundProcessStatus};
use application::ports::version_conflict;
use application::process_managers::{cart_stream, delivery_job_stream, order_stream, restaurant_stream, HookOutcome};
use application::prospects::{prospect_contact_at, record_prospect_contact, require_prospect};
use application::reclamations::{
    open_reclamation, reject_reclamation, reopen_reclamation, require_reclamation, resolve_reclamation,
    ReclamationState, ReclamationStatus,
};
use application::refunds::{
    approved_run, denied_run, on_payment_refunded, open_refund_run, pending_refund_run, ReclamationResolution,
    ReclamationResolved, RefundOpened, RefundOrderRead,
};
use application::restaurants::{
    activate_restaurant, change_order_acceptance_mode, claim_restaurant_listing, deactivate_restaurant,
    opt_out_restaurant_listing, record_inbound_restaurant_registration, register_restaurant,
    register_restaurant_account, require_restaurant, require_restaurant_account, slug_after_reservation,
    slug_needs_reservation, update_restaurant_account, verify_gbp_order_link, RestaurantState, SlugChange,
};
use application::riders::{
    approve_delivery_partner_availability, register_delivery_partner_availability, register_rider,
    registration_outcome, require_partner_registration, require_rider, rider_already_registered, update_rider_info,
    RiderRegistered, RiderStatus,
};

fn code<T: std::fmt::Debug>(r: Result<T, DomainError>) -> Option<String> {
    r.err().and_then(|e| rejection_code(&e))
}

fn context(e: &DomainError, key: &str) -> Option<ContextValue> {
    match e {
        DomainError::Rejected { context, .. } => {
            context.iter().find(|f: &&ContextField| f.key == key).map(|f| f.value.clone())
        }
        _ => None,
    }
}

fn text(s: &str) -> ContextValue {
    ContextValue::Text(s.to_string())
}

// ---- Delivery jobs --------------------------------------------------------------------------

fn job(status: DeliveryStatus, assigned: bool, rider: Option<u128>) -> DeliveryJobState {
    DeliveryJobState { order_id: 77, status, assigned, rider_id: rider, partner_ref: None, open_issue: false }
}

#[test]
fn a_missing_job_is_not_found() {
    let e = require_delivery_job(5, None).unwrap_err();
    assert_eq!(rejection_code(&e), Some("DeliveryJobNotFound".into()));
    assert_eq!(context(&e, "deliveryJobId"), Some(ContextValue::Id(5)));
    assert_eq!(require_delivery_job(5, Some(job(DeliveryStatus::Pending, false, None))).unwrap().order_id, 77);
}

#[test]
fn only_a_pending_job_is_accepted_and_the_order_comes_from_its_birth() {
    assert_eq!(
        accept_delivery(5, 9, &job(DeliveryStatus::Pending, false, None)),
        Ok(DeliveryJobEvent::AcceptedByRider { delivery_job_id: 5, order_id: 77, rider_id: 9 })
    );
    assert_eq!(code(accept_delivery(5, 9, &job(DeliveryStatus::Assigned, true, Some(3)))), Some("DeliveryAlreadyAssigned".into()));
    let e = accept_delivery(5, 9, &job(DeliveryStatus::Delivered, true, Some(3))).unwrap_err();
    assert_eq!(rejection_code(&e), Some("InvalidDeliveryStatus".into()));
    assert_eq!(context(&e, "currentStatus"), Some(text("DELIVERED")));
    assert_eq!(context(&e, "expectedStatus"), Some(text("PENDING")));
    assert_eq!(code(decline_delivery(5, 9, None, &job(DeliveryStatus::PickedUp, true, Some(3)))), Some("DeliveryAlreadyAssigned".into()));
    assert_eq!(
        decline_delivery(5, 9, Some("too far".into()), &job(DeliveryStatus::Pending, false, None)),
        Ok(DeliveryJobEvent::DeclinedByRider { delivery_job_id: 5, rider_id: 9, reason: Some("too far".into()) })
    );
}

#[test]
fn only_the_assigned_rider_picks_up_and_completes() {
    let assigned = job(DeliveryStatus::Assigned, true, Some(9));
    assert_eq!(confirm_pickup(5, 9, &assigned, true), Ok(DeliveryJobEvent::PickedUp { delivery_job_id: 5, order_id: 77, rider_id: 9 }));
    let e = confirm_pickup(5, 8, &assigned, true).unwrap_err();
    assert_eq!(rejection_code(&e), Some("InvalidDeliveryStatus".into()));
    assert_eq!(context(&e, "detail"), Some(text("job is not assigned to rider 00000000-0000-0000-0000-000000000008")));
    let e = confirm_pickup(5, 9, &job(DeliveryStatus::Pending, false, None), false).unwrap_err();
    assert_eq!(context(&e, "expectedStatus"), Some(text("ASSIGNED")));
    assert_eq!(context(&e, "detail"), None);
    let picked = job(DeliveryStatus::PickedUp, true, Some(9));
    assert_eq!(complete_delivery(5, 9, &picked, true), Ok(DeliveryJobEvent::Completed { delivery_job_id: 5, order_id: 77 }));
    let e = complete_delivery(5, 9, &assigned, false).unwrap_err();
    assert_eq!(context(&e, "expectedStatus"), Some(text("PICKED_UP")));
}

#[test]
fn cancelling_is_idempotent_and_refused_after_delivery() {
    assert_eq!(cancel_delivery(5, None, &job(DeliveryStatus::Cancelled, false, None), false), Ok(None));
    assert_eq!(
        cancel_delivery(5, None, &job(DeliveryStatus::Failed, false, None), true),
        Ok(Some(DeliveryJobEvent::Cancelled { delivery_job_id: 5, reason: None }))
    );
    assert_eq!(code(cancel_delivery(5, None, &job(DeliveryStatus::Delivered, true, Some(9)), false)), Some("InvalidDeliveryStatus".into()));
}

#[test]
fn issues_are_reported_and_resolved_before_delivery() {
    let mut j = job(DeliveryStatus::PickedUp, true, Some(9));
    assert_eq!(
        report_delivery_issue(5, Some(9), "flat tyre".into(), &j),
        Ok(DeliveryJobEvent::IssueReported { delivery_job_id: 5, rider_id: Some(9), issue: "flat tyre".into() })
    );
    let e = resolve_delivery_issue(5, "fixed".into(), &j).unwrap_err();
    assert_eq!(context(&e, "detail"), Some(text("no open issue to resolve")));
    assert_eq!(context(&e, "expectedStatus"), Some(text("PICKED_UP")));
    j.open_issue = true;
    assert_eq!(
        resolve_delivery_issue(5, "fixed".into(), &j),
        Ok(DeliveryJobEvent::IssueResolved { delivery_job_id: 5, resolution: "fixed".into() })
    );
    let delivered = job(DeliveryStatus::Delivered, true, Some(9));
    assert_eq!(code(report_delivery_issue(5, None, "late".into(), &delivered)), Some("InvalidDeliveryStatus".into()));
    assert_eq!(code(resolve_delivery_issue(5, "x".into(), &delivered)), Some("InvalidDeliveryStatus".into()));
}

#[test]
fn only_a_partner_assignment_is_undone() {
    let rider_job = job(DeliveryStatus::Assigned, true, Some(9));
    let e = unassign_delivery_from_partner(5, None, &rider_job, true).unwrap_err();
    assert_eq!(context(&e, "detail"), Some(text("job is not assigned to a partner")));
    let partner_job = DeliveryJobState { partner_ref: Some("uber".into()), ..job(DeliveryStatus::Assigned, true, None) };
    assert_eq!(
        unassign_delivery_from_partner(5, Some("no courier".into()), &partner_job, true),
        Ok(DeliveryJobEvent::UnassignedFromPartner { delivery_job_id: 5, reason: Some("no courier".into()) })
    );
    assert_eq!(code(unassign_delivery_from_partner(5, None, &partner_job, false)), Some("InvalidDeliveryStatus".into()));
    let e = invalid_delivery_status(5, DeliveryStatus::OutForDelivery, DeliveryStatus::PickedUp);
    assert_eq!(context(&e, "currentStatus"), Some(text("OUT_FOR_DELIVERY")));
}

// ---- Riders and partner registrations --------------------------------------------------------

#[test]
fn a_rider_registers_once_and_starts_offline() {
    assert_eq!(
        register_rider(4, None, "Sam".into(), Some("+33600000000".into()), false),
        Ok(RiderRegistered { rider_id: 4, auth_ref: None, display_name: "Sam".into(), phone: Some("+33600000000".into()), status: RiderStatus::Offline })
    );
    assert_eq!(code(register_rider(4, None, "Sam".into(), None, true)), Some("RiderAlreadyRegistered".into()));
    assert_eq!(code(registration_outcome(Err(version_conflict("Rider-4", 0)), rider_already_registered(4))), Some("RiderAlreadyRegistered".into()));
    assert_eq!(registration_outcome(Ok(1), rider_already_registered(4)), Ok(()));
    assert_eq!(
        registration_outcome(Err(DomainError::Repository("down".into())), rider_already_registered(4)),
        Err(DomainError::Repository("down".into()))
    );
    assert_eq!(code(require_rider::<u8>(4, None)), Some("RiderNotFound".into()));
    assert_eq!(code(update_rider_info(&None, &None)), Some("NoEditableFieldProvided".into()));
    assert_eq!(update_rider_info(&Some("Sam".into()), &None), Ok(()));
}

#[test]
fn a_partner_registration_is_requested_once_and_approved_while_pending() {
    assert_eq!(code(register_delivery_partner_availability(6, true)), Some("DeliveryPartnerAvailabilityAlreadyRequested".into()));
    assert_eq!(register_delivery_partner_availability(6, false), Ok(()));
    assert_eq!(code(require_partner_registration::<u8>(6, None)), Some("DeliveryPartnerAvailabilityNotFound".into()));
    assert_eq!(approve_delivery_partner_availability(6, &"PENDING".to_string()), Ok(()));
    let e = approve_delivery_partner_availability(6, &"APPROVED".to_string()).unwrap_err();
    assert_eq!(rejection_code(&e), Some("DeliveryPartnerAvailabilityNotPending".into()));
    assert_eq!(context(&e, "currentStatus"), Some(text("APPROVED")));
}

// ---- Orders ---------------------------------------------------------------------------------

fn order(status: &str) -> OrderState {
    OrderState {
        restaurant_id: 3,
        customer_id: 11,
        status: status.into(),
        terminated: false,
        delivery_rated: false,
        restaurant_rated: false,
        delivery_satisfaction_recorded: false,
    }
}

#[test]
fn an_order_is_found_only_under_its_restaurant() {
    assert_eq!(require_order(1, 3, Some(order("PLACED"))), Ok(order("PLACED")));
    assert_eq!(code(require_order(1, 4, Some(order("PLACED")))), Some("OrderNotFound".into()));
    assert_eq!(code(require_order(1, 3, None)), Some("OrderNotFound".into()));
}

#[test]
fn a_delivered_order_is_rated_once_each_way() {
    let delivered = order("DELIVERED");
    assert_eq!(rate_order(1, &delivered), Ok(11));
    assert_eq!(rate_restaurant(1, &delivered), Ok(11));
    assert_eq!(record_delivery_satisfaction(1, &delivered), Ok(11));
    let rated = OrderState { delivery_rated: true, restaurant_rated: true, delivery_satisfaction_recorded: true, ..order("DELIVERED") };
    assert_eq!(code(rate_order(1, &rated)), Some("OrderAlreadyRated".into()));
    assert_eq!(code(rate_restaurant(1, &rated)), Some("RestaurantAlreadyRated".into()));
    assert_eq!(code(record_delivery_satisfaction(1, &rated)), Some("DeliverySatisfactionAlreadyRecorded".into()));
    let e = rate_order(1, &order("READY")).unwrap_err();
    assert_eq!(rejection_code(&e), Some("InvalidOrderStatus".into()));
    assert_eq!(context(&e, "currentStatus"), Some(text("READY")));
    assert_eq!(request_refund(1, &delivered), Ok(11));
    assert_eq!(code(request_refund(1, &order("PLACED"))), Some("InvalidOrderStatus".into()));
}

fn tip(recipient: &str, cents: i64) -> Tip {
    Tip { recipient: recipient.into(), amount: Money { amount_cents: cents, currency: "EUR".into() } }
}

#[test]
fn tips_accumulate_with_a_derived_tipper() {
    let o = order("DELIVERED");
    assert_eq!(
        tip_order(1, 3, vec![tip("RIDER", 200)], &"CUSTOMER".to_string(), &o),
        Ok(OrderTipped { order_id: 1, restaurant_id: 3, tipped_by: Tipper::Customer, customer_id: Some(11), tips: vec![tip("RIDER", 200)] })
    );
    assert_eq!(
        tip_order(1, 3, vec![tip("RIDER", 100)], &"RESTAURANT_ACCOUNT".to_string(), &o),
        Ok(OrderTipped { order_id: 1, restaurant_id: 3, tipped_by: Tipper::Restaurant, customer_id: None, tips: vec![tip("RIDER", 100)] })
    );
    let e = tip_order(1, 3, vec![tip("RESTAURANT", 100)], &"RESTAURANT".to_string(), &o).unwrap_err();
    assert_eq!(rejection_code(&e), Some("InvalidTipRecipient".into()));
    assert_eq!(context(&e, "tippedBy"), Some(text("RESTAURANT")));
    let e = tip_order(1, 3, vec![], &"CUSTOMER".to_string(), &o).unwrap_err();
    assert_eq!(rejection_code(&e), Some("ValidationError".into()));
    assert_eq!(context(&e, "field"), Some(text("tips")));
    let cancelled = OrderState { terminated: true, ..order("CANCELLED_BY_CUSTOMER") };
    assert_eq!(code(tip_order(1, 3, vec![tip("RIDER", 1)], &"CUSTOMER".to_string(), &cancelled)), Some("InvalidOrderStatus".into()));
}

#[test]
fn inbound_order_facts_are_recorded_once() {
    assert_eq!(record_inbound_order_event(true, false), Some(RecordOutcome::NoChange));
    assert_eq!(record_inbound_order_event(false, true), Some(RecordOutcome::AlreadyRecorded));
    assert_eq!(record_inbound_order_event(false, false), None);
    assert_eq!(record_inbound_order_placed(false, true), Some(RecordOutcome::AlreadyRecorded));
    assert_eq!(record_inbound_order_placed(false, false), Some(RecordOutcome::NoChange));
    assert_eq!(record_inbound_order_placed(true, false), None);
}

// ---- Restaurants ----------------------------------------------------------------------------

fn restaurant(status: RestaurantStatus, slug: Option<&str>) -> RestaurantState {
    RestaurantState {
        display_name: "Pizzaroma".into(),
        status,
        order_acceptance: OrderAcceptanceMode::Normal,
        slug: slug.map(|s| s.into()),
        listing_claimed: false,
        gbp_order_url: None,
    }
}

#[test]
fn restaurants_and_accounts_must_exist() {
    assert_eq!(code(require_restaurant::<u8>(3, None)), Some("RestaurantNotFound".into()));
    assert_eq!(require_restaurant(3, Some(7u8)), Ok(7));
    assert_eq!(code(require_restaurant_account::<u8>(3, None)), Some("RestaurantAccountNotFound".into()));
    assert_eq!(register_restaurant_account(&"EUR".to_string()), Ok(()));
    let e = register_restaurant_account(&"eur".to_string()).unwrap_err();
    assert_eq!(rejection_code(&e), Some("InvalidCurrency".into()));
    assert_eq!(context(&e, "currency"), Some(text("eur")));
    assert_eq!(code(update_restaurant_account(false, false, false, false)), Some("NoEditableFieldProvided".into()));
    assert_eq!(update_restaurant_account(false, false, false, true), Ok(()));
}

#[test]
fn a_location_registers_under_an_existing_account_with_a_default_listing() {
    assert_eq!(register_restaurant(None, false, None), Ok("NON_PARTNER".to_string()));
    assert_eq!(register_restaurant(Some(8), true, Some("ACTIVE_PARTNER".into())), Ok("ACTIVE_PARTNER".to_string()));
    assert_eq!(code(register_restaurant(Some(8), false, None)), Some("RestaurantAccountNotFound".into()));
}

#[test]
fn the_storefront_address_is_reserved_then_configured_or_renamed() {
    assert!(!slug_needs_reservation(&Some("pizzaroma".into()), &"pizzaroma".to_string()));
    assert!(slug_needs_reservation(&Some("pizzaroma".into()), &"roma".to_string()));
    assert!(slug_needs_reservation(&None, &"roma".to_string()));
    assert_eq!(
        slug_after_reservation(3, "roma".into(), None, true),
        Ok(SlugChange::Configured { restaurant_id: 3, slug: "roma".into() })
    );
    assert_eq!(
        slug_after_reservation(3, "roma".into(), Some("pizzaroma".into()), true),
        Ok(SlugChange::Reconfigured { restaurant_id: 3, slug: "roma".into(), previous_slug: "pizzaroma".into() })
    );
    let e = slug_after_reservation(3, "roma".into(), None, false).unwrap_err();
    assert_eq!(rejection_code(&e), Some("SlugAlreadyTaken".into()));
    assert_eq!(context(&e, "slug"), Some(text("roma")));
}

#[test]
fn activation_and_deactivation_ensure_a_state() {
    assert_eq!(code(activate_restaurant(3, &restaurant(RestaurantStatus::Draft, None))), Some("SlugNotConfigured".into()));
    assert_eq!(activate_restaurant(3, &restaurant(RestaurantStatus::Draft, Some("roma"))), Ok(true));
    assert_eq!(activate_restaurant(3, &restaurant(RestaurantStatus::Active, Some("roma"))), Ok(false));
    assert!(!deactivate_restaurant(&restaurant(RestaurantStatus::Inactive, Some("roma"))));
    assert!(deactivate_restaurant(&restaurant(RestaurantStatus::Active, Some("roma"))));
}

#[test]
fn only_an_active_restaurant_changes_its_mode() {
    let active = restaurant(RestaurantStatus::Active, Some("roma"));
    assert_eq!(change_order_acceptance_mode(3, &active, OrderAcceptanceMode::Paused), Ok(()));
    let e = change_order_acceptance_mode(3, &active, OrderAcceptanceMode::Normal).unwrap_err();
    assert_eq!(rejection_code(&e), Some("AcceptanceModeUnchanged".into()));
    assert_eq!(context(&e, "mode"), Some(text("NORMAL")));
    let e = change_order_acceptance_mode(3, &restaurant(RestaurantStatus::Inactive, None), OrderAcceptanceMode::Paused).unwrap_err();
    assert_eq!(rejection_code(&e), Some("RestaurantNotActive".into()));
    assert_eq!(context(&e, "restaurantName"), Some(text("Pizzaroma")));
}

#[test]
fn listing_claims_need_a_verified_owner() {
    assert_eq!(code(claim_restaurant_listing(3, true, true)), Some("ListingAlreadyClaimed".into()));
    assert_eq!(code(claim_restaurant_listing(3, false, false)), Some("ListingOwnershipNotVerified".into()));
    assert_eq!(claim_restaurant_listing(3, false, true), Ok(()));
    assert_eq!(code(opt_out_restaurant_listing(3, false)), Some("ListingOwnershipNotVerified".into()));
    assert_eq!(opt_out_restaurant_listing(3, true), Ok(()));
    assert_eq!(code(verify_gbp_order_link(3, None)), Some("GbpOrderLinkNotConfigured".into()));
    assert_eq!(verify_gbp_order_link(3, Some("https://g.page/x".into())), Ok("https://g.page/x".to_string()));
}

#[test]
fn a_registry_report_records_updates_or_changes_nothing() {
    assert_eq!(record_inbound_restaurant_registration(false, true), RecordOutcome::Recorded);
    assert_eq!(record_inbound_restaurant_registration(true, true), RecordOutcome::Updated);
    assert_eq!(record_inbound_restaurant_registration(true, false), RecordOutcome::NoChange);
}

// ---- Conversations --------------------------------------------------------------------------

fn message(role: &str, id: u128) -> PostMessage {
    PostMessage {
        order_id: 1,
        message_id: id,
        author_role: role.into(),
        visibility: "ALL".into(),
        body: "Hello".into(),
        original_locale: None,
        attachment_refs: vec![],
    }
}

fn conversation() -> ConversationState {
    ConversationState {
        customer_chat_enabled: false,
        message_ids: vec![7],
        translations: vec![(7, "fr".into())],
        muted_roles: vec!["CUSTOMER".into()],
    }
}

#[test]
fn a_message_is_posted_once_by_an_allowed_author() {
    let conv = Some(conversation());
    assert_eq!(code(post_message(message("RESTAURANT", 8), &None, PostRequires::Allowed)), Some("ConversationNotFound".into()));
    assert_eq!(code(post_message(message("RESTAURANT", 8), &conv, PostRequires::NotAParticipant)), Some("NotAParticipant".into()));
    assert_eq!(code(post_message(message("RESTAURANT", 8), &conv, PostRequires::RoleMismatch)), Some("RoleMismatch".into()));
    assert_eq!(code(post_message(message("CUSTOMER", 8), &conv, PostRequires::Allowed)), Some("CustomerChatDisabled".into()));
    assert_eq!(code(post_message(message("RESTAURANT", 7), &conv, PostRequires::Allowed)), Some("MessageAlreadyPosted".into()));
    let posted = post_message(message("RESTAURANT", 8), &conv, PostRequires::Allowed).expect("accepted");
    let cmd = message("RESTAURANT", 8);
    assert_eq!(
        posted,
        MessagePosted {
            order_id: cmd.order_id,
            message_id: 8,
            author_role: "RESTAURANT".into(),
            visibility: cmd.visibility.clone(),
            body: cmd.body.clone(),
            original_locale: None,
            attachment_refs: vec![],
        }
    );
}

#[test]
fn a_conversation_is_opened_once_and_translations_cached_once() {
    assert_eq!(code(open_conversation(1, true)), Some("ConversationAlreadyOpen".into()));
    assert_eq!(open_conversation(1, false), Ok(()));
    assert_eq!(code(require_conversation(1, None)), Some("ConversationNotFound".into()));
    let c = conversation();
    assert_eq!(code(record_message_translation(1, 8, &"fr".to_string(), &c)), Some("MessageNotFoundInConversation".into()));
    let e = record_message_translation(1, 7, &"fr".to_string(), &c).unwrap_err();
    assert_eq!(rejection_code(&e), Some("TranslationAlreadyRecorded".into()));
    assert_eq!(context(&e, "locale"), Some(text("fr")));
    assert_eq!(record_message_translation(1, 7, &"en".to_string(), &c), Ok(()));
}

#[test]
fn a_mute_is_justified_and_only_a_muted_role_is_unmuted() {
    assert_eq!(code(mute_participant(1, None)), Some("MuteReasonRequired".into()));
    assert_eq!(code(mute_participant(1, Some(" \t ".into()))), Some("MuteReasonRequired".into()));
    assert_eq!(mute_participant(1, Some(" abuse ".into())), Ok(" abuse ".to_string()));
    let c = conversation();
    assert_eq!(unmute_participant(1, &"CUSTOMER".to_string(), &c), Ok(()));
    let e = unmute_participant(1, &"RIDER".to_string(), &c).unwrap_err();
    assert_eq!(rejection_code(&e), Some("ParticipantNotMuted".into()));
    assert_eq!(context(&e, "mutedRole"), Some(text("RIDER")));
}

// ---- Reclamations ---------------------------------------------------------------------------

fn claim(status: ReclamationStatus) -> ReclamationState {
    ReclamationState { order_id: 1, customer_id: 11, status }
}

#[test]
fn a_claim_is_decided_while_open_and_reopened_once_decided() {
    assert_eq!(code(open_reclamation(2, true)), Some("ReclamationAlreadyExists".into()));
    assert_eq!(code(require_reclamation(2, None)), Some("ReclamationNotFound".into()));
    let amount = Money { amount_cents: 500, currency: "EUR".into() };
    assert_eq!(
        resolve_reclamation(2, &claim(ReclamationStatus::Open), ReclamationResolution::PartialRefund, Some(amount.clone()), None),
        Ok(ReclamationResolved {
            reclamation_id: 2,
            order_id: 1,
            customer_id: 11,
            resolution: ReclamationResolution::PartialRefund,
            refund_amount: Some(amount),
            note: None,
        })
    );
    assert_eq!(
        code(resolve_reclamation(2, &claim(ReclamationStatus::Open), ReclamationResolution::PartialRefund, None, None)),
        Some("PartialRefundAmountRequired".into())
    );
    assert_eq!(
        code(resolve_reclamation(2, &claim(ReclamationStatus::Rejected), ReclamationResolution::FullRefund, None, None)),
        Some("ReclamationNotOpen".into())
    );
    assert_eq!(code(reject_reclamation(2, &claim(ReclamationStatus::Open), Some("  ".into()))), Some("RejectionReasonRequired".into()));
    assert_eq!(reject_reclamation(2, &claim(ReclamationStatus::Open), Some("no proof".into())), Ok("no proof".to_string()));
    assert_eq!(code(reject_reclamation(2, &claim(ReclamationStatus::Resolved), Some("late".into()))), Some("ReclamationNotOpen".into()));
    assert_eq!(code(reopen_reclamation(2, &claim(ReclamationStatus::Open))), Some("ReclamationNotReopenable".into()));
    assert_eq!(reopen_reclamation(2, &claim(ReclamationStatus::Resolved)), Ok(()));
}

// ---- Catalogs -------------------------------------------------------------------------------

fn catalog() -> CatalogState {
    CatalogState {
        restaurant_id: 3,
        slug: Some("menu".into()),
        categories: vec![CategoryView { id: 20, name: "Pizzas".into(), external_ref: Some("cat-pizza".into()) }],
        product_ids: vec![30],
        option_lists: vec![OptionListView { id: 40, name: "Sauces".into() }],
        offer_ids: vec![50],
        refs_in_use: vec!["cat-pizza".into(), "p-1".into()],
    }
}

fn eur(cents: i64) -> Money {
    Money { amount_cents: cents, currency: "EUR".into() }
}

fn row() -> Option<RestaurantCurrency> {
    Some(RestaurantCurrency { display_name: "Pizzaroma".into(), default_currency: "EUR".into() })
}

#[test]
fn references_are_unique_within_the_catalog() {
    let in_use: Vec<String> = vec!["a".into(), "b".into()];
    assert_eq!(ensure_refs_unique(&in_use, &vec!["c".into(), "d".into()], 9), Ok(()));
    let e = ensure_refs_unique(&in_use, &vec!["c".into(), "b".into()], 9).unwrap_err();
    assert_eq!(rejection_code(&e), Some("RefNotUnique".into()));
    assert_eq!(context(&e, "ref"), Some(text("b")));
    assert_eq!(context(&e, "catalogId"), Some(ContextValue::Id(9)));
    let e = ensure_refs_unique(&in_use, &vec!["c".into(), "c".into()], 9).unwrap_err();
    assert_eq!(context(&e, "ref"), Some(text("c")));
}

#[test]
fn prices_use_the_restaurant_currency() {
    assert_eq!(ensure_prices_use_restaurant_currency(&row(), &vec![eur(100), eur(200)]), Ok(()));
    let e = ensure_prices_use_restaurant_currency(&row(), &vec![eur(100), Money { amount_cents: 1, currency: "USD".into() }]).unwrap_err();
    assert_eq!(rejection_code(&e), Some("CurrencyMismatch".into()));
    assert_eq!(context(&e, "currency"), Some(text("EUR")));
    assert_eq!(ensure_prices_use_restaurant_currency(&None, &vec![Money { amount_cents: 1, currency: "USD".into() }]), Ok(()));
}

#[test]
fn a_product_is_added_with_fresh_refs_in_a_known_category() {
    let c = catalog();
    let offers = vec![OfferInput { price: eur(900), external_ref: Some("o-1".into()) }];
    assert_eq!(add_product(1, &c, &row(), &Some("p-2".into()), &Some("cat-pizza".into()), &offers), Ok(()));
    let e = add_product(1, &c, &row(), &Some("p-2".into()), &Some("cat-pasta".into()), &offers).unwrap_err();
    assert_eq!(rejection_code(&e), Some("CatalogCategoryRefNotFound".into()));
    assert_eq!(context(&e, "ref"), Some(text("cat-pasta")));
    assert_eq!(code(add_product(1, &c, &row(), &Some("p-1".into()), &None, &offers)), Some("RefNotUnique".into()));
    let dup = vec![OfferInput { price: eur(900), external_ref: Some("p-2".into()) }];
    assert_eq!(code(add_product(1, &c, &row(), &Some("p-2".into()), &None, &dup)), Some("RefNotUnique".into()));
    let usd = vec![OfferInput { price: Money { amount_cents: 900, currency: "USD".into() }, external_ref: None }];
    assert_eq!(code(add_product(1, &c, &row(), &None, &None, &usd)), Some("CurrencyMismatch".into()));
}

#[test]
fn products_keep_an_offer_and_exist_to_be_changed() {
    assert_eq!(require_product(30, &Some(catalog())), Ok(()));
    assert_eq!(code(require_product(31, &Some(catalog()))), Some("ProductNotFound".into()));
    assert_eq!(code(require_product(30, &None)), Some("ProductNotFound".into()));
    let e = update_product(30, &"Margherita".to_string(), &vec![], &row()).unwrap_err();
    assert_eq!(rejection_code(&e), Some("ProductMustHaveOffer".into()));
    assert_eq!(context(&e, "productName"), Some(text("Margherita")));
    assert_eq!(update_product(30, &"Margherita".to_string(), &vec![OfferInput { price: eur(900), external_ref: None }], &row()), Ok(()));
    assert_eq!(code(require_catalog::<u8>(1, None)), Some("CatalogNotFound".into()));
    assert_eq!(require_offer(50, &Some(catalog())), Ok(()));
    assert_eq!(code(require_offer(51, &Some(catalog()))), Some("OfferNotFound".into()));
}

#[test]
fn categories_resolve_their_parent_and_are_removed_when_empty() {
    let c = catalog();
    assert_eq!(add_catalog_category(1, &c, &Some("cat-pizza".into()), &Some("cat-calzone".into())), Ok(()));
    let e = add_catalog_category(1, &c, &Some("cat-x".into()), &None).unwrap_err();
    assert_eq!(rejection_code(&e), Some("ParentCatalogCategoryNotFound".into()));
    assert_eq!(context(&e, "parentRef"), Some(text("cat-x")));
    assert_eq!(code(add_catalog_category(1, &c, &None, &Some("p-1".into()))), Some("RefNotUnique".into()));
    assert_eq!(code(update_catalog_category(21, &"X".to_string(), &Some(c.clone()), false)), Some("CatalogCategoryNotFound".into()));
    assert_eq!(code(update_catalog_category(20, &"Pizzas".to_string(), &Some(c.clone()), true)), Some("CatalogCategoryCycle".into()));
    assert_eq!(update_catalog_category(20, &"Pizzas".to_string(), &Some(c.clone()), false), Ok(()));
    let e = remove_catalog_category(20, &Some(c.clone()), true).unwrap_err();
    assert_eq!(rejection_code(&e), Some("CatalogCategoryNotEmpty".into()));
    assert_eq!(context(&e, "categoryName"), Some(text("Pizzas")));
    assert_eq!(remove_catalog_category(20, &Some(c), false), Ok(()));
    assert_eq!(code(remove_catalog_category(20, &None, false)), Some("CatalogCategoryNotFound".into()));
}

fn sauces(min: i64, max: Option<i64>, options: usize) -> OptionListInput {
    OptionListInput {
        id: 40,
        name: "Sauces".into(),
        external_ref: Some("ol-1".into()),
        min_selections: min,
        max_selections: max,
        option_refs: vec![Some("opt".into()); options],
    }
}

#[test]
fn option_lists_have_options_and_sensible_bounds() {
    assert_eq!(add_option_list(&sauces(1, Some(2), 3)), Ok(()));
    assert_eq!(code(add_option_list(&sauces(0, None, 0))), Some("OptionListMustHaveOption".into()));
    assert_eq!(code(add_option_list(&sauces(-1, None, 2))), Some("InvalidSelectionBounds".into()));
    assert_eq!(code(add_option_list(&sauces(3, Some(2), 5))), Some("InvalidSelectionBounds".into()));
    assert_eq!(code(add_option_list(&sauces(3, None, 2))), Some("InvalidSelectionBounds".into()));
    assert_eq!(update_option_list(&sauces(0, None, 1), &Some(catalog())), Ok(()));
    assert_eq!(code(update_option_list(&sauces(0, None, 0), &Some(catalog()))), Some("OptionListMustHaveOption".into()));
    assert_eq!(code(update_option_list(&OptionListInput { id: 41, ..sauces(0, None, 1) }, &Some(catalog()))), Some("OptionListNotFound".into()));
    let e = remove_option_list(40, &Some(catalog()), true).unwrap_err();
    assert_eq!(rejection_code(&e), Some("OptionListInUse".into()));
    assert_eq!(context(&e, "optionListName"), Some(text("Sauces")));
    assert_eq!(remove_option_list(40, &Some(catalog()), false), Ok(()));
    assert_eq!(code(remove_option_list(41, &Some(catalog()), false)), Some("OptionListNotFound".into()));
}

#[test]
fn an_import_carries_every_reference() {
    let products = vec![ImportedProduct { external_ref: Some("p".into()), offer_refs: vec![Some("o".into())] }];
    assert_eq!(import_catalog(&vec![Some("c".into())], &products, &vec![sauces(0, None, 2)]), Ok(()));
    assert_eq!(code(import_catalog(&vec![None], &products, &vec![])), Some("MissingRef".into()));
    let offerless = vec![ImportedProduct { external_ref: Some("p".into()), offer_refs: vec![None] }];
    assert_eq!(code(import_catalog(&vec![], &offerless, &vec![])), Some("MissingRef".into()));
    let mut list = sauces(0, None, 1);
    list.option_refs = vec![None];
    assert_eq!(code(import_catalog(&vec![], &vec![], &vec![list])), Some("MissingRef".into()));
}

#[test]
fn a_catalog_route_is_unique_per_restaurant() {
    assert!(!catalog_slug_changes(&Some("menu".into()), &"menu".to_string()));
    assert!(catalog_slug_changes(&Some("menu".into()), &"carte".to_string()));
    let e = configure_catalog_slug(1, &"carte".to_string(), true).unwrap_err();
    assert_eq!(rejection_code(&e), Some("CatalogSlugAlreadyTaken".into()));
    assert_eq!(context(&e, "slug"), Some(text("carte")));
    assert_eq!(configure_catalog_slug(1, &"carte".to_string(), false), Ok(()));
}

// ---- Customers ------------------------------------------------------------------------------

#[test]
fn an_email_or_phone_belongs_to_one_customer() {
    assert_eq!(request_email_verification(None, 11, &"a@b.fr".to_string()), Ok(()));
    assert_eq!(request_email_verification(Some(11), 11, &"a@b.fr".to_string()), Ok(()));
    let e = request_email_verification(Some(12), 11, &"a@b.fr".to_string()).unwrap_err();
    assert_eq!(rejection_code(&e), Some("EmailAlreadyInUse".into()));
    assert_eq!(context(&e, "email"), Some(text("a@b.fr")));
    let e = require_phone_free(Some(12), 11, &"+33612345678".to_string()).unwrap_err();
    assert_eq!(rejection_code(&e), Some("PhoneAlreadyInUse".into()));
    assert_eq!(context(&e, "phone"), Some(text("+33612345678")));
    assert_eq!(require_phone_free(Some(11), 11, &"+33612345678".to_string()), Ok(()));
}

#[test]
fn customer_edits_and_idempotent_removals() {
    let c = CustomerState { locale: Some("fr".into()), favorites: vec![3], addresses: vec![5] };
    assert_eq!(stored_locale(Some(c.clone())), Some("fr".to_string()));
    assert_eq!(stored_locale(None), None);
    assert_eq!(code(update_customer_info(&None)), Some("NoEditableFieldProvided".into()));
    assert_eq!(update_customer_info(&Some("Ana".into())), Ok(()));
    assert_eq!(code(mark_restaurant_as_favorite(3, false)), Some("RestaurantNotFound".into()));
    assert_eq!(mark_restaurant_as_favorite(3, true), Ok(()));
    assert!(unmark_restaurant_as_favorite(&Some(c.clone()), 3));
    assert!(!unmark_restaurant_as_favorite(&Some(c.clone()), 4));
    assert!(!unmark_restaurant_as_favorite(&None, 3));
    assert!(remove_customer_address(&Some(c.clone()), 5));
    assert!(!remove_customer_address(&Some(c), 6));
}

// ---- Prospects ------------------------------------------------------------------------------

#[test]
fn prospects_are_contacted_at_most_three_times_a_week_apart() {
    let day: i64 = 86_400_000;
    assert_eq!(code(prospect_contact_at(3, 3, None, 0)), Some("ProspectContactLimitReached".into()));
    assert_eq!(code(prospect_contact_at(3, 1, Some(10 * day), 16 * day)), Some("ProspectContactedTooRecently".into()));
    assert_eq!(prospect_contact_at(3, 1, Some(10 * day), 17 * day), Ok(()));
    assert_eq!(prospect_contact_at(3, 0, None, 0), Ok(()));
    assert_eq!(record_prospect_contact(3, 0, None), Ok(()));
    assert_eq!(code(record_prospect_contact(3, 5, None)), Some("ProspectContactLimitReached".into()));
    assert_eq!(code(require_prospect::<u8>(3, None)), Some("ProspectNotFound".into()));
}

// ---- Mailbox supervision --------------------------------------------------------------------

#[test]
fn only_a_poisoned_row_is_requeued() {
    assert_eq!(requeue_mailbox_message(9, RequeueOutcome::Requeued { actor_type: "Order".into() }), Ok("Order".to_string()));
    assert_eq!(requeue_mailbox_message(9, RequeueOutcome::AlreadyDeliverable { actor_type: "Cart".into() }), Ok("Cart".to_string()));
    assert_eq!(code(requeue_mailbox_message(9, RequeueOutcome::NotFound)), Some("MailboxMessageNotFound".into()));
    let e = requeue_mailbox_message(9, RequeueOutcome::NotRequeueable { status: "SUCCEEDED".into() }).unwrap_err();
    assert_eq!(rejection_code(&e), Some("MailboxMessageNotRequeueable".into()));
    assert_eq!(context(&e, "status"), Some(text("SUCCEEDED")));
    assert_eq!(context(&e, "targetMessageId"), Some(ContextValue::Id(9)));
}

// ---- Refund and checkout runs ---------------------------------------------------------------

fn refund_run(status: RefundProcessStatus) -> RefundProcessRow {
    RefundProcessRow {
        order_id: 1,
        payment_intent_id: Some("pi_123".into()),
        refund_id: None,
        process_status: status,
        approved_amount_cents: None,
        reason: None,
        last_update_utc: 0,
    }
}

#[test]
fn a_refund_decision_needs_a_pending_run() {
    let pending = refund_run(RefundProcessStatus::PendingApproval);
    assert_eq!(pending_refund_run(1, Some(pending.clone())), Ok(pending.clone()));
    assert_eq!(code(pending_refund_run(1, None)), Some("RefundNotPending".into()));
    assert_eq!(code(pending_refund_run(1, Some(refund_run(RefundProcessStatus::Denied)))), Some("RefundNotPending".into()));
    let approved = approved_run(pending.clone(), 1960);
    assert_eq!(approved.process_status, RefundProcessStatus::ApprovedAwaitingSettlement);
    assert_eq!(approved.approved_amount_cents, Some(1960));
    let denied = denied_run(pending, "Outside the refund window".into());
    assert_eq!(denied.process_status, RefundProcessStatus::Denied);
    assert_eq!(denied.reason.as_deref(), Some("Outside the refund window"));
}

#[test]
fn the_settlement_closes_an_approved_run_once() {
    let approved = approved_run(refund_run(RefundProcessStatus::PendingApproval), 1960);
    let closed = match on_payment_refunded(Some(approved), "re_1".into()) {
        HookOutcome::Ready(row) => row,
        HookOutcome::Skip(reason) => panic!("settlement skipped: {reason}"),
    };
    assert_eq!(closed.process_status, RefundProcessStatus::Refunded);
    assert_eq!(closed.refund_id.as_deref(), Some("re_1"));
    assert!(matches!(on_payment_refunded(Some(closed), "re_1".into()), HookOutcome::Skip(_)));
    assert!(matches!(on_payment_refunded(None, "re_1".into()), HookOutcome::Skip(_)));
}

fn checkout_run(status: PaymentProcessStatus) -> PaymentProcessRow {
    PaymentProcessRow {
        cart_id: 2,
        order_id: 1,
        payment_intent_id: "pi_123".into(),
        process_status: status,
        payment_status: PaymentStatus::Pending,
        customer_id: None,
        session_id: None,
        client_secret: None,
        last_processed_stripe_event_id: None,
        last_update_utc: 0,
    }
}

#[test]
fn a_failed_payment_resolves_the_run_and_nothing_else() {
    let intent = "pi_123".to_string();
    let failed = match on_payment_failed(&intent, Some(checkout_run(PaymentProcessStatus::AwaitingPaymentResult)), 5).unwrap() {
        HookOutcome::Ready(row) => row,
        HookOutcome::Skip(reason) => panic!("skipped: {reason}"),
    };
    assert_eq!(failed.process_status, PaymentProcessStatus::Failed);
    assert_eq!(failed.payment_status, PaymentStatus::Failed);
    assert_eq!(failed.last_processed_stripe_event_id.as_deref(), Some("00000000-0000-0000-0000-000000000005"));
    assert!(matches!(on_payment_failed(&intent, Some(checkout_run(PaymentProcessStatus::Failed)), 5), Ok(HookOutcome::Skip(_))));
    assert_eq!(code(on_payment_failed(&intent, None, 5)), Some("PaymentEventOrphaned".into()));
    assert!(payment_not_recorded(None));
    assert!(payment_not_recorded(Some(false)));
    assert!(!payment_not_recorded(Some(true)));
}

#[test]
fn aggregates_live_on_typed_streams() {
    assert_eq!(order_stream(1), "Order-00000000-0000-0000-0000-000000000001");
    assert_eq!(cart_stream(2), "Cart-00000000-0000-0000-0000-000000000002");
    assert_eq!(delivery_job_stream(0xab), "DeliveryJob-00000000-0000-0000-0000-0000000000ab");
    assert_eq!(restaurant_stream(3), "Restaurant-00000000-0000-0000-0000-000000000003");
}

#[test]
fn identified_sessions_bind_their_unbound_carts() {
    let unbound = CartState { restaurant_id: 3, status: CartStatus::Open, customer_id: None, lines: vec![] };
    let bound = CartState { customer_id: Some(8), ..unbound.clone() };
    let carts = vec![(1, Some(unbound.clone())), (2, None), (3, Some(bound.clone())), (4, Some(unbound))];
    let (binds, row) = on_customer_identified(9, 7, &carts);
    assert_eq!(
        binds,
        vec![
            CartEvent::CartBoundToCustomer { cart_id: 1, customer_id: 7 },
            CartEvent::CartBoundToCustomer { cart_id: 4, customer_id: 7 },
        ]
    );
    assert_eq!((row.session_id, row.customer_id), (9, 7));
    let (again, _) = on_customer_identified(9, 7, &vec![(1, Some(bound))]);
    assert!(again.is_empty());
}

fn order_read(payment_status: &str) -> RefundOrderRead {
    RefundOrderRead { payment_status: payment_status.into(), total_amount: eur(1960), payment_intent_id: Some("pi_123".into()) }
}

#[test]
fn a_captured_order_opens_a_pending_refund_once() {
    let reason = Some("Out of ingredients".to_string());
    let (run, fact) = match open_refund_run(1, 3, reason.clone(), &None, Some(order_read("CAPTURED"))) {
        HookOutcome::Ready(opened) => opened,
        HookOutcome::Skip(why) => panic!("skipped: {why}"),
    };
    assert_eq!(run.process_status, RefundProcessStatus::PendingApproval);
    assert_eq!(run.payment_intent_id.as_deref(), Some("pi_123"));
    assert_eq!(run.reason, reason);
    assert_eq!(fact, RefundOpened { order_id: 1, restaurant_id: 3, amount: eur(1960), reason: reason.clone() });
    assert!(matches!(open_refund_run(1, 3, reason.clone(), &None, Some(order_read("PENDING"))), HookOutcome::Skip(_)));
    assert!(matches!(open_refund_run(1, 3, reason.clone(), &None, None), HookOutcome::Skip(_)));
    let denied = refund_run(RefundProcessStatus::Denied);
    assert!(matches!(open_refund_run(1, 3, reason, &Some(denied), Some(order_read("CAPTURED"))), HookOutcome::Skip(_)));
}
