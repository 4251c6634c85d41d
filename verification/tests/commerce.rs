use std::cell::Cell;

use application::cart::{
    add_cart_line_events, add_cart_line_plan, bind_cart_to_customer, change_cart_line_quantity_plan, quantity_changed,
    remove_cart_line, require_orderable_line, require_valid_option_selection, AddLinePlan, CartEvent, CartState,
    CartStatus,
};
use application::checkout::{
    admit_checkout, admit_single_flight, buyer_total, checkout_recorded, confirm_expected_total, consume_customer_credit,
    credit_spend, credit_to_apply, grant_customer_credit, place_replacement_order, CheckoutRestaurant, CreditDebit,
    CreditEvent, CreditLedger, OrderAcceptanceMode, OrderPlaced, PaymentRequestOutput, PlaceOrder, RestaurantStatus,
    ServiceType, ServiceWindow, ServiceWindowVerdict,
};
use application::checkout_flow::{complete_checkout, prepare_checkout};
use application::errors::{rejection_code, ContextField, ContextValue, DomainError};
use application::model::{CartLineItem, Money, OfferOptionListView, OfferOptionView, OfferView};
use application::pm_state::{PaymentProcessRow, PaymentProcessStatus, PaymentStatus};
use application::pricing::{price_cart, price_lines, CatalogReadRepository, CatalogRow, CatalogSnapshot};

fn eur(cents: i64) -> Money {
    Money { amount_cents: cents, currency: "EUR".into() }
}

fn cart_line(id: u128, offer: u128, quantity: i64, options: &[u128]) -> CartLineItem {
    CartLineItem { cart_line_id: id, offer_id: offer, quantity, selected_option_ids: options.to_vec() }
}

fn offer_view(offer: u128, price_cents: i64, option: Option<(u128, i64)>) -> OfferView {
    let option_lists = option
        .map(|(id, cents)| {
            vec![OfferOptionListView {
                id: 200,
                min_selections: 0,
                max_selections: Some(1),
                multiple_selection: false,
                option_ids: vec![id],
                options: vec![OfferOptionView { id, name: "Extra".into(), price: eur(cents) }],
            }]
        })
        .unwrap_or_default();
    OfferView {
        offer_id: offer,
        product_id: 100 + offer,
        product_name: "Burger".into(),
        offer_name: "Default".into(),
        price: eur(price_cents),
        available: true,
        option_lists,
    }
}

fn context_of(err: &DomainError, key: &str) -> Option<ContextValue> {
    match err {
        DomainError::Rejected { context, .. } => context.iter().find(|f: &&ContextField| f.key == key).map(|f| f.value.clone()),
        _ => None,
    }
}

/// A live catalog that counts its row reads; `offer_by_id` is the port's own, one row read per line.
struct CountingCatalog {
    row: CatalogRow,
    reads: Cell<usize>,
}

impl CatalogReadRepository for CountingCatalog {
    fn by_restaurant(&self, restaurant_id: u128) -> Result<Option<CatalogRow>, DomainError> {
        self.reads.set(self.reads.get() + 1);
        Ok(if restaurant_id == self.row.restaurant_id { Some(self.row.clone()) } else { None })
    }
}

#[test]
fn a_line_with_an_option_at_quantity_two_prices_to_3400() {
    let catalog = CountingCatalog {
        row: CatalogRow { restaurant_id: 1, offers: vec![offer_view(20, 1500, Some((30, 200)))] },
        reads: Cell::new(0),
    };
    let priced = price_cart(&catalog, 2, 1, &vec![cart_line(10, 20, 2, &[30])]).expect("both the offer and the option resolve");
    assert_eq!(priced.total_amount, eur(3400), "(1500 + 200) * 2");
    assert_eq!(priced.items.len(), 1);
    assert_eq!(priced.items[0].unit_price, eur(1500));
    assert_eq!(priced.items[0].line_total, eur(3400));
    assert_eq!(priced.items[0].selected_options.len(), 1);
    assert_eq!(priced.items[0].selected_options[0].price, eur(200));
    assert_eq!(priced.items[0].selected_options[0].option_list_id, Some(200));
    assert_eq!(priced.breakdown.total, priced.total_amount);
    assert_eq!(priced.breakdown.articles, priced.total_amount);
    assert_eq!(priced.breakdown.restaurant_payout, priced.total_amount);
    assert_eq!(priced.breakdown.delivery, eur(0));
    assert_eq!(priced.breakdown.captain_net, eur(0));
}

#[test]
fn the_snapshot_prices_a_multi_line_cart_with_one_catalog_read() {
    let lines = vec![cart_line(10, 20, 1, &[]), cart_line(11, 21, 2, &[]), cart_line(12, 22, 1, &[])];
    let store = CountingCatalog {
        row: CatalogRow {
            restaurant_id: 1,
            offers: vec![offer_view(20, 1000, None), offer_view(21, 250, None), offer_view(22, 500, None)],
        },
        reads: Cell::new(0),
    };
    let direct = price_cart(&store, 2, 1, &lines).expect("all three offers resolve");
    assert_eq!(store.reads.get(), 3, "the port's own offer_by_id reads the row once per line");

    store.reads.set(0);
    let snapshot = CatalogSnapshot::load(&store, 1).expect("one load");
    let memoized = price_cart(&snapshot, 2, 1, &lines).expect("the same three offers resolve from the snapshot");
    assert_eq!(store.reads.get(), 1, "one catalog read per request");
    assert_eq!(memoized, direct, "the memo changes the read count, never the price");
    assert_eq!(memoized.total_amount, eur(2000), "1000 + 250*2 + 500");
}

#[test]
fn the_snapshot_never_answers_for_another_restaurant() {
    let store = CountingCatalog {
        row: CatalogRow { restaurant_id: 1, offers: vec![offer_view(20, 1000, None)] },
        reads: Cell::new(0),
    };
    let snapshot = CatalogSnapshot::load(&store, 1).expect("loads");
    let err = price_cart(&snapshot, 2, 9, &vec![cart_line(10, 20, 1, &[])]).expect_err("restaurant 9 must not price from 1");
    assert_eq!(rejection_code(&err), Some("PriceUnresolvable".to_string()));
    assert_eq!(context_of(&err, "offerId"), Some(ContextValue::Id(20)));
    assert_eq!(snapshot.by_restaurant(9).unwrap(), None);
}

#[test]
fn pricing_refuses_an_empty_cart_a_missing_option_and_a_currency_clash() {
    let catalog = CountingCatalog {
        row: CatalogRow {
            restaurant_id: 1,
            offers: vec![
                offer_view(20, 1500, Some((30, 200))),
                OfferView { price: Money { amount_cents: 700, currency: "USD".into() }, ..offer_view(21, 700, None) },
            ],
        },
        reads: Cell::new(0),
    };
    let err = price_cart(&catalog, 2, 1, &Vec::new()).unwrap_err();
    assert_eq!(rejection_code(&err), Some("CartEmpty".to_string()));
    assert_eq!(context_of(&err, "cartId"), Some(ContextValue::Id(2)));
    let err = price_cart(&catalog, 2, 1, &vec![cart_line(10, 20, 1, &[31])]).unwrap_err();
    assert_eq!(rejection_code(&err), Some("PriceUnresolvable".to_string()));
    let err = price_cart(&catalog, 2, 1, &vec![cart_line(10, 20, 1, &[]), cart_line(11, 21, 1, &[])]).unwrap_err();
    assert_eq!(rejection_code(&err), Some("PriceUnresolvable".to_string()));
    assert_eq!(context_of(&err, "offerId"), Some(ContextValue::Id(21)));
}

/// A catalog whose read model is down.
struct DownCatalog;

impl CatalogReadRepository for DownCatalog {
    fn by_restaurant(&self, _restaurant_id: u128) -> Result<Option<CatalogRow>, DomainError> {
        Err(DomainError::Repository("catalog read model unavailable".into()))
    }
}

#[test]
fn pricing_hands_back_the_catalog_failure_and_stops_at_the_first_unpriced_line() {
    let err = price_cart(&DownCatalog, 2, 1, &vec![cart_line(10, 20, 1, &[])]).unwrap_err();
    assert_eq!(err, DomainError::Repository("catalog read model unavailable".into()));
    let store = CountingCatalog {
        row: CatalogRow { restaurant_id: 1, offers: vec![offer_view(20, 1000, None)] },
        reads: Cell::new(0),
    };
    let lines = vec![cart_line(10, 99, 1, &[]), cart_line(11, 20, 1, &[])];
    let err = price_cart(&store, 2, 1, &lines).unwrap_err();
    assert_eq!(rejection_code(&err), Some("PriceUnresolvable".to_string()));
    assert_eq!(context_of(&err, "offerId"), Some(ContextValue::Id(99)));
    assert_eq!(context_of(&err, "cartId"), Some(ContextValue::Id(2)));
    assert_eq!(store.reads.get(), 1, "nothing is read past the first line that does not price");
}

#[test]
fn the_live_read_prices_as_price_lines_does_on_what_was_read() {
    let store = CountingCatalog {
        row: CatalogRow {
            restaurant_id: 1,
            offers: vec![offer_view(20, 100, Some((30, 50))), offer_view(21, 1000, None)],
        },
        reads: Cell::new(0),
    };
    let lines = vec![cart_line(1, 20, 3, &[30]), cart_line(2, 21, 1, &[])];
    let read: Vec<Option<OfferView>> = lines.iter().map(|l| store.offer_by_id(1, l.offer_id).unwrap()).collect();
    assert_eq!(price_cart(&store, 7, 1, &lines), price_lines(7, &lines, &read));
    assert_eq!(price_cart(&store, 7, 1, &lines).unwrap().total_amount, eur(1450));
}

#[test]
fn a_snapshot_answers_every_read_and_only_from_its_row() {
    let store = CountingCatalog {
        row: CatalogRow { restaurant_id: 1, offers: vec![offer_view(20, 1000, None)] },
        reads: Cell::new(0),
    };
    let snapshot = CatalogSnapshot::load(&store, 1).expect("loads");
    assert_eq!(snapshot.offer_by_id(1, 20), Ok(Some(offer_view(20, 1000, None))));
    assert_eq!(snapshot.offer_by_id(1, 99), Ok(None));
    assert_eq!(snapshot.offer_by_id(9, 20), Ok(None));
    let empty = CatalogSnapshot::load(&store, 5).expect("a restaurant without a catalog still loads");
    assert_eq!(empty.offer_by_id(5, 20), Ok(None));
}

#[test]
fn price_lines_prices_from_the_answers_in_line_order() {
    let lines = vec![cart_line(1, 20, 3, &[30]), cart_line(2, 21, 1, &[])];
    let offers = vec![Some(offer_view(20, 100, Some((30, 50)))), Some(offer_view(21, 1000, None))];
    let priced = price_lines(7, &lines, &offers).unwrap();
    assert_eq!(priced.items[0].line_total, eur(450));
    assert_eq!(priced.items[1].line_total, eur(1000));
    assert_eq!(priced.total_amount, eur(1450));
    let err = price_lines(7, &lines, &vec![Some(offer_view(20, 100, Some((30, 50)))), None]).unwrap_err();
    assert_eq!(context_of(&err, "offerId"), Some(ContextValue::Id(21)));
}

// ---- Store credit -------------------------------------------------------------------------

fn ledger(balance: i64, consumed: Vec<(u128, i64)>) -> Option<CreditLedger> {
    Some(CreditLedger {
        balance_cents: balance,
        currency: Some("EUR".into()),
        consumed: consumed.into_iter().map(|(order_id, amount_cents)| CreditDebit { order_id, amount_cents }).collect(),
        granted_for: vec![1],
    })
}

#[test]
fn applies_balance_up_to_the_order_total() {
    assert_eq!(credit_to_apply(&ledger(300, vec![]), 9, &eur(1000)), 300);
}

#[test]
fn a_checkout_without_a_ledger_applies_no_credit_whatever_the_total() {
    assert_eq!(credit_to_apply(&None, 9, &eur(-100)), 0);
    let other_currency = Some(CreditLedger { currency: Some("USD".into()), ..ledger(500, vec![]).unwrap() });
    assert_eq!(credit_to_apply(&other_currency, 9, &eur(-100)), 0);
}

#[test]
fn caps_applied_credit_at_the_order_total() {
    assert_eq!(credit_to_apply(&ledger(1500, vec![]), 9, &eur(1000)), 1000);
}

#[test]
fn currency_mismatch_applies_nothing() {
    let usd = Money { amount_cents: 1000, currency: "USD".into() };
    assert_eq!(credit_to_apply(&ledger(300, vec![]), 9, &usd), 0);
}

#[test]
fn no_ledger_applies_nothing() {
    assert_eq!(credit_to_apply(&None, 9, &eur(1000)), 0);
}

#[test]
fn already_consumed_order_reuses_the_exact_amount() {
    // Granted 1000, consumed 300 for order 9: the balance is 700, but order 9 reuses 300.
    assert_eq!(credit_to_apply(&ledger(700, vec![(9, 300)]), 9, &eur(1000)), 300);
}

#[test]
fn credit_spending_is_once_per_order_and_never_overspends() {
    let l = ledger(700, vec![(9, 300)]);
    assert_eq!(consume_customer_credit(5, eur(300), 9, &l), Ok(None));
    let err = consume_customer_credit(5, eur(800), 10, &l).unwrap_err();
    assert_eq!(rejection_code(&err), Some("InsufficientCustomerCredit".to_string()));
    assert_eq!(context_of(&err, "customerId"), Some(ContextValue::Id(5)));
    assert_eq!(
        consume_customer_credit(5, eur(700), 10, &l),
        Ok(Some(CreditEvent::CustomerCreditConsumed { customer_id: 5, amount: eur(700), order_id: 10 }))
    );
    assert!(consume_customer_credit(5, eur(1), 10, &None).is_err());
    assert_eq!(grant_customer_credit(5, eur(100), 1, &l), None);
    assert_eq!(
        grant_customer_credit(5, eur(100), 2, &l),
        Some(CreditEvent::CustomerCreditGranted { customer_id: 5, amount: eur(100), reclamation_id: 2 })
    );
}

#[test]
fn the_buyer_pays_the_gross_less_the_applied_credit() {
    let gross = eur(1000);
    let applied = credit_to_apply(&ledger(300, vec![]), 9, &gross);
    assert_eq!(buyer_total(&gross, applied), eur(700));
    assert_eq!(credit_spend(5, 9, applied, &gross), Some((5, eur(300), 9)));
    assert_eq!(credit_spend(5, 9, 0, &gross), None);
}

// ---- Checkout guards ------------------------------------------------------------------------

fn restaurant(status: RestaurantStatus, acceptance: OrderAcceptanceMode, test: bool) -> Option<CheckoutRestaurant> {
    Some(CheckoutRestaurant {
        restaurant_id: 0x1001,
        display_name: "Pizzaroma".into(),
        status,
        order_acceptance: acceptance,
        registered_for_test: test,
        timezone: Some("Europe/Paris".into()),
    })
}

fn window(verdict: ServiceWindowVerdict) -> ServiceWindow {
    ServiceWindow { verdict, opens_at: Some("2026-08-14T17:00:00Z".into()), window_from: None, last_order_at: None }
}

fn command() -> PlaceOrder {
    PlaceOrder {
        order_id: 9,
        cart_id: 0x2002,
        restaurant_id: 0x1001,
        customer_id: 0xC1,
        test_mode: false,
        customer_contact: "Johnny +33612345678".into(),
        service_type: ServiceType::Delivery,
        delivery_address: Some("9 Rue Colbert, 37000 Tours".into()),
        expected_total: None,
        payment_method_id: "pm_card_visa".into(),
        note: None,
    }
}

fn open_cart(lines: usize) -> Option<CartState> {
    Some(CartState {
        restaurant_id: 0x1001,
        status: CartStatus::Open,
        customer_id: None,
        lines: (0..lines as u128).map(|i| cart_line(i, 0x3003, 1, &[])).collect(),
    })
}

fn code_of(r: Result<(), DomainError>) -> Option<String> {
    r.err().and_then(|e| rejection_code(&e))
}

#[test]
fn the_checkout_guards_refuse_in_order() {
    let at = "2026-08-14T20:00:00Z".to_string();
    let cmd = command();
    let ok = restaurant(RestaurantStatus::Active, OrderAcceptanceMode::Normal, false);
    let open = window(ServiceWindowVerdict::Open);
    assert_eq!(admit_checkout(&cmd, &ok, &open, &at, true, &open_cart(1)), Ok(()));
    assert_eq!(code_of(admit_checkout(&cmd, &None, &open, &at, true, &open_cart(1))), Some("RestaurantNotFound".into()));
    assert_eq!(
        code_of(admit_checkout(&cmd, &restaurant(RestaurantStatus::Inactive, OrderAcceptanceMode::Paused, true), &open, &at, true, &None)),
        Some("RestaurantNotActive".into())
    );
    assert_eq!(
        code_of(admit_checkout(&cmd, &restaurant(RestaurantStatus::Active, OrderAcceptanceMode::Paused, false), &open, &at, true, &None)),
        Some("RestaurantPaused".into())
    );
    assert_eq!(
        code_of(admit_checkout(&cmd, &restaurant(RestaurantStatus::Active, OrderAcceptanceMode::Normal, true), &open, &at, true, &None)),
        Some("CannotOrderTestRestaurant".into())
    );
    let test_cmd = PlaceOrder { test_mode: true, ..command() };
    assert_eq!(admit_checkout(&test_cmd, &restaurant(RestaurantStatus::Active, OrderAcceptanceMode::Normal, true), &open, &at, true, &open_cart(1)), Ok(()));
    let outside = window(ServiceWindowVerdict::OutsideHours);
    let err = admit_checkout(&cmd, &ok, &outside, &at, true, &open_cart(1)).unwrap_err();
    assert_eq!(rejection_code(&err), Some("OutsideServiceHours".into()));
    assert_eq!(context_of(&err, "nextOpensAt"), Some(ContextValue::Text("2026-08-14T17:00:00Z".into())));
    assert_eq!(context_of(&err, "windowFrom"), Some(ContextValue::Absent));
    assert_eq!(context_of(&err, "evaluatedAt"), Some(ContextValue::Text(at.clone())));
    assert_eq!(admit_checkout(&cmd, &ok, &outside, &at, false, &open_cart(1)), Ok(()), "the shadow switch never refuses");
    assert_eq!(admit_checkout(&cmd, &ok, &window(ServiceWindowVerdict::HoursUndeclared), &at, true, &open_cart(1)), Ok(()));
    assert_eq!(code_of(admit_checkout(&cmd, &ok, &open, &at, true, &None)), Some("CartNotFound".into()));
    let closed = Some(CartState { status: CartStatus::CheckedOut, ..open_cart(1).unwrap() });
    assert_eq!(code_of(admit_checkout(&cmd, &ok, &open, &at, true, &closed)), Some("CartNotOpen".into()));
    let elsewhere = Some(CartState { restaurant_id: 0x1002, ..open_cart(1).unwrap() });
    assert_eq!(code_of(admit_checkout(&cmd, &ok, &open, &at, true, &elsewhere)), Some("CartRestaurantMismatch".into()));
    assert_eq!(code_of(admit_checkout(&cmd, &ok, &open, &at, true, &open_cart(0))), Some("CartEmpty".into()));
}

fn run(status: PaymentProcessStatus) -> Option<PaymentProcessRow> {
    Some(PaymentProcessRow {
        cart_id: 0x2002,
        order_id: 9,
        payment_intent_id: "pi_1".into(),
        process_status: status,
        payment_status: PaymentStatus::Pending,
        customer_id: None,
        session_id: None,
        client_secret: None,
        last_processed_stripe_event_id: None,
        last_update_utc: 0,
    })
}

#[test]
fn a_checkout_in_flight_conflicts_and_a_delivery_needs_an_address() {
    let cmd = command();
    assert_eq!(code_of(admit_single_flight(&cmd, &run(PaymentProcessStatus::AwaitingPaymentResult))), Some("Conflict".into()));
    assert_eq!(admit_single_flight(&cmd, &run(PaymentProcessStatus::Failed)), Ok(()));
    let no_address = PlaceOrder { delivery_address: None, ..command() };
    assert_eq!(code_of(admit_single_flight(&no_address, &None)), Some("DeliveryAddressRequired".into()));
    let collection = PlaceOrder { service_type: ServiceType::Collection, delivery_address: None, ..command() };
    assert_eq!(admit_single_flight(&collection, &None), Ok(()));
}

#[test]
fn an_expected_total_is_a_confirmation_only() {
    assert_eq!(confirm_expected_total(2, &None, &eur(3400)), Ok(()));
    assert_eq!(confirm_expected_total(2, &Some(eur(3400)), &eur(3400)), Ok(()));
    let err = confirm_expected_total(2, &Some(eur(3000)), &eur(3400)).unwrap_err();
    assert_eq!(rejection_code(&err), Some("PriceMismatch".into()));
    assert_eq!(context_of(&err, "expectedAmountCents"), Some(ContextValue::Int(3400)));
    assert_eq!(context_of(&err, "submittedAmountCents"), Some(ContextValue::Int(3000)));
    assert_eq!(context_of(&err, "currency"), Some(ContextValue::Text("EUR".into())));
    let usd = Money { amount_cents: 3400, currency: "USD".into() };
    assert!(confirm_expected_total(2, &Some(usd), &eur(3400)).is_err());
}

#[test]
fn place_order_spends_credit_and_reduces_the_payment_intent() {
    let lines = vec![cart_line(1, 0x3003, 1, &[])];
    let priced = price_lines(0x2002, &lines, &vec![Some(offer_view(0x3003, 1000, None))]).unwrap();
    let applied = credit_to_apply(&ledger(300, vec![]), 9, &priced.total_amount);
    assert_eq!(applied, 300);
    let (event, row) = checkout_recorded(
        command(),
        priced.clone(),
        applied,
        &window(ServiceWindowVerdict::Open),
        Some("Europe/Paris".into()),
        "2026-08-14T17:00:00Z".into(),
        PaymentRequestOutput { payment_intent_id: "pi_123".into(), client_secret: "secret".into() },
        Some(0x5E55),
    );
    assert_eq!(event.amount, eur(700), "the intent charges the buyer total");
    assert_eq!(event.checkout.total_amount, eur(1000), "the order keeps its gross value");
    assert_eq!(event.checkout.items, priced.items);
    assert_eq!(event.checkout.verdict, ServiceWindowVerdict::Open);
    assert_eq!(row.process_status, PaymentProcessStatus::AwaitingPaymentResult);
    assert_eq!(row.payment_status, PaymentStatus::Pending);
    assert_eq!(row.client_secret.as_deref(), Some("secret"));
    assert_eq!(row.session_id, Some(0x5E55));
    assert_eq!(credit_spend(0xC1, 9, applied, &priced.total_amount), Some((0xC1, eur(300), 9)));
}

fn original_order() -> OrderPlaced {
    let lines = vec![cart_line(1, 0x3003, 2, &[])];
    let priced = price_lines(2, &lines, &vec![Some(offer_view(0x3003, 980, None))]).unwrap();
    OrderPlaced {
        order_id: 1,
        test_mode: false,
        external_ref: Some("order-1".into()),
        restaurant_id: 3,
        customer_id: Some(4),
        customer_contact: "Johnny".into(),
        service_type: ServiceType::Delivery,
        delivery_address: Some("9 Rue Colbert".into()),
        items: priced.items,
        total_amount: priced.total_amount,
        breakdown: priced.breakdown,
        note: Some("no onions".into()),
        replacement_of: None,
        payment_intent_id: Some("pi_123".into()),
    }
}

#[test]
fn a_replacement_carries_the_items_and_moves_no_money() {
    let original = original_order();
    let replacement = place_replacement_order(77, 1, Some(original.clone())).unwrap();
    assert_eq!(replacement.order_id, 77);
    assert_eq!(replacement.items, original.items);
    assert_eq!(replacement.total_amount, eur(0));
    assert_eq!(replacement.breakdown.total, eur(0));
    assert_eq!(replacement.breakdown.restaurant_payout, eur(0));
    assert_eq!(replacement.replacement_of, Some(1));
    assert_eq!(replacement.payment_intent_id, None);
    assert_eq!(replacement.external_ref, None);
    assert_eq!(replacement.delivery_address, original.delivery_address);
    let err = place_replacement_order(77, 1, None).unwrap_err();
    assert_eq!(rejection_code(&err), Some("OrderNotFound".into()));
    assert_eq!(context_of(&err, "orderId"), Some(ContextValue::Id(1)));
}

// ---- Cart -----------------------------------------------------------------------------------

fn options_offer(min: i64, max: Option<i64>, multiple: bool) -> OfferView {
    OfferView {
        option_lists: vec![OfferOptionListView {
            id: 200,
            min_selections: min,
            max_selections: max,
            multiple_selection: multiple,
            option_ids: vec![30, 31],
            options: vec![],
        }],
        ..offer_view(20, 1000, None)
    }
}

#[test]
fn option_selections_respect_the_lists_and_their_bounds() {
    assert!(require_valid_option_selection(&options_offer(0, Some(1), false), &vec![30]).is_ok());
    let err = require_valid_option_selection(&options_offer(0, Some(1), false), &vec![99]).unwrap_err();
    assert_eq!(rejection_code(&err), Some("InvalidOptionSelection".into()));
    assert_eq!(context_of(&err, "productName"), Some(ContextValue::Text("Burger".into())));
    assert_eq!(
        context_of(&err, "detail"),
        Some(ContextValue::Text(format!("optionId={} not in the offer's option lists", uuid::Uuid::from_u128(99))))
    );
    let err = require_valid_option_selection(&options_offer(1, None, false), &vec![]).unwrap_err();
    assert_eq!(
        context_of(&err, "detail"),
        Some(ContextValue::Text(format!("optionListId={} picked=0 minSelections=1", uuid::Uuid::from_u128(200))))
    );
    let err = require_valid_option_selection(&options_offer(0, Some(1), true), &vec![30, 31]).unwrap_err();
    assert_eq!(
        context_of(&err, "detail"),
        Some(ContextValue::Text(format!("optionListId={} picked=2 maxSelections=1", uuid::Uuid::from_u128(200))))
    );
    assert!(require_valid_option_selection(&options_offer(0, None, false), &vec![30, 30]).is_err());
    assert!(require_valid_option_selection(&options_offer(0, None, true), &vec![30, 30]).is_ok());
}

#[test]
fn a_line_is_orderable_only_from_an_available_offer() {
    let line = cart_line(1, 20, 1, &[]);
    let err = require_orderable_line(None, &line, Ok(())).unwrap_err();
    assert_eq!(rejection_code(&err), Some("OfferNotFound".into()));
    let unavailable = OfferView { available: false, ..offer_view(20, 1000, None) };
    let err = require_orderable_line(Some(&unavailable), &line, Ok(())).unwrap_err();
    assert_eq!(rejection_code(&err), Some("OfferUnavailable".into()));
    assert_eq!(context_of(&err, "offerName"), Some(ContextValue::Text("Default".into())));
    let stock = DomainError::Rejected { code: "InsufficientStock".into(), context: vec![] };
    assert_eq!(require_orderable_line(Some(&offer_view(20, 1000, None)), &line, Err(stock.clone())), Err(stock));
    assert_eq!(require_orderable_line(Some(&offer_view(20, 1000, None)), &line, Ok(())), Ok(()));
}

#[test]
fn adding_a_line_starts_the_cart_appends_or_replays() {
    let line = cart_line(1, 20, 2, &[]);
    assert_eq!(add_cart_line_plan(5, 0x1001, &line, 99, &None, 0), Ok(AddLinePlan::StartCart));
    let err = add_cart_line_plan(5, 0x1001, &cart_line(1, 20, 100, &[]), 99, &None, 0).unwrap_err();
    assert_eq!(rejection_code(&err), Some("QuantityExceedsLimit".into()));
    let cart = open_cart(1);
    assert_eq!(add_cart_line_plan(5, 0x1001, &cart_line(0, 20, 1, &[]), 99, &cart, 3), Ok(AddLinePlan::Replay));
    assert_eq!(add_cart_line_plan(5, 0x1001, &cart_line(7, 20, 1, &[]), 99, &cart, 3), Ok(AddLinePlan::Append { expected_version: 3 }));
    let err = add_cart_line_plan(5, 0x9999, &cart_line(7, 20, 1, &[]), 99, &cart, 3).unwrap_err();
    assert_eq!(rejection_code(&err), Some("CartRestaurantMismatch".into()));
    let closed = Some(CartState { status: CartStatus::CheckedOut, ..open_cart(1).unwrap() });
    let err = add_cart_line_plan(5, 0x1001, &cart_line(7, 20, 1, &[]), 99, &closed, 3).unwrap_err();
    assert_eq!(context_of(&err, "status"), Some(ContextValue::Text("CHECKED_OUT".into())));

    let (version, events) = add_cart_line_events(5, 0x1001, Some(0x5E55), line.clone(), AddLinePlan::StartCart);
    assert_eq!(version, 0);
    assert_eq!(
        events,
        vec![
            CartEvent::CartStarted { cart_id: 5, restaurant_id: 0x1001, session_id: Some(0x5E55), customer_id: None },
            CartEvent::CartLineAdded { cart_id: 5, line: line.clone() },
        ]
    );
    let (_, events) = add_cart_line_events(5, 0x1001, None, line, AddLinePlan::Replay);
    assert!(events.is_empty());
}

#[test]
fn removing_changing_and_binding_follow_the_cart_state() {
    let cart = open_cart(2);
    assert_eq!(remove_cart_line(5, 1, &cart), Ok(CartEvent::CartLineRemoved { cart_id: 5, cart_line_id: 1 }));
    let err = remove_cart_line(5, 9, &cart).unwrap_err();
    assert_eq!(rejection_code(&err), Some("CartLineNotFound".into()));
    assert_eq!(context_of(&err, "cartLineId"), Some(ContextValue::Id(9)));
    assert_eq!(rejection_code(&remove_cart_line(5, 1, &None).unwrap_err()), Some("CartNotFound".into()));
    assert_eq!(change_cart_line_quantity_plan(5, 1, 4, 99, &cart), Ok(0x3003));
    let err = change_cart_line_quantity_plan(5, 1, 100, 99, &cart).unwrap_err();
    assert_eq!(context_of(&err, "offerId"), Some(ContextValue::Id(0x3003)));
    assert_eq!(quantity_changed(5, 1, 4, Ok(())), Ok(CartEvent::CartLineQuantityChanged { cart_id: 5, cart_line_id: 1, quantity: 4 }));
    assert_eq!(bind_cart_to_customer(5, 7, &cart), Ok(Some(CartEvent::CartBoundToCustomer { cart_id: 5, customer_id: 7 })));
    let bound = Some(CartState { customer_id: Some(6), ..open_cart(1).unwrap() });
    assert_eq!(bind_cart_to_customer(5, 7, &bound), Ok(None), "first bind wins");
}

// ---- The composed checkout leg ----------------------------------------------------------------

fn checkout_catalog() -> CountingCatalog {
    CountingCatalog {
        row: CatalogRow { restaurant_id: 0x1001, offers: vec![offer_view(0x3003, 1000, None)] },
        reads: Cell::new(0),
    }
}

#[test]
fn a_refused_checkout_never_prices_and_never_reaches_the_gateway() {
    let catalog = checkout_catalog();
    let at = "2026-08-14T20:00:00Z".to_string();
    let paused = restaurant(RestaurantStatus::Active, OrderAcceptanceMode::Paused, false);
    let err = prepare_checkout(&command(), &paused, &window(ServiceWindowVerdict::Open), &at, true, &open_cart(2), &None, &catalog, &None)
        .unwrap_err();
    assert_eq!(rejection_code(&err), Some("RestaurantPaused".to_string()));
    assert_eq!(catalog.reads.get(), 0, "nothing is priced before the guards pass");
    let in_flight = Some(PaymentProcessRow {
        cart_id: 0x2002,
        order_id: 9,
        payment_intent_id: "pi_prev".into(),
        process_status: PaymentProcessStatus::AwaitingPaymentResult,
        payment_status: PaymentStatus::Pending,
        customer_id: None,
        session_id: None,
        client_secret: None,
        last_processed_stripe_event_id: None,
        last_update_utc: 0,
    });
    let active = restaurant(RestaurantStatus::Active, OrderAcceptanceMode::Normal, false);
    let err = prepare_checkout(&command(), &active, &window(ServiceWindowVerdict::Open), &at, true, &open_cart(2), &in_flight, &catalog, &None)
        .unwrap_err();
    assert_eq!(rejection_code(&err), Some("Conflict".to_string()));
    assert_eq!(catalog.reads.get(), 0);
}

#[test]
fn a_checkout_asks_the_gateway_for_the_priced_total_less_the_credit() {
    let catalog = checkout_catalog();
    let at = "2026-08-14T20:00:00Z".to_string();
    let active = restaurant(RestaurantStatus::Active, OrderAcceptanceMode::Normal, false);
    let cmd = PlaceOrder { expected_total: Some(eur(2000)), ..command() };
    let req = prepare_checkout(&cmd, &active, &window(ServiceWindowVerdict::Open), &at, true, &open_cart(2), &None, &catalog, &ledger(300, vec![]))
        .expect("every guard passes");
    assert_eq!(catalog.reads.get(), 2, "each line priced from the live catalog");
    assert_eq!(req.priced.total_amount, eur(2000));
    assert_eq!(req.applied, 300);
    assert_eq!(req.amount, eur(1700));

    let mismatch = PlaceOrder { expected_total: Some(eur(1999)), ..command() };
    let err = prepare_checkout(&mismatch, &active, &window(ServiceWindowVerdict::Open), &at, true, &open_cart(2), &None, &catalog, &None)
        .unwrap_err();
    assert_eq!(rejection_code(&err), Some("PriceMismatch".to_string()));

    let intent = PaymentRequestOutput { payment_intent_id: "pi_123".into(), client_secret: "secret".into() };
    let done = complete_checkout(cmd.clone(), req.clone(), Ok(intent), &ledger(300, vec![]), &window(ServiceWindowVerdict::Open), None, at.clone(), None)
        .expect("the gateway accepted");
    assert_eq!(
        done.credit,
        Some(CreditEvent::CustomerCreditConsumed { customer_id: 0xC1, amount: eur(300), order_id: 9 })
    );
    assert_eq!(done.intent_created.amount, eur(1700));
    assert_eq!(done.intent_created.checkout.total_amount, eur(2000));
    assert_eq!(done.run.process_status, PaymentProcessStatus::AwaitingPaymentResult);
    assert_eq!(done.run.payment_intent_id, "pi_123");
}

#[test]
fn a_declined_checkout_never_spends_credit() {
    let catalog = checkout_catalog();
    let at = "2026-08-14T20:00:00Z".to_string();
    let active = restaurant(RestaurantStatus::Active, OrderAcceptanceMode::Normal, false);
    let req = prepare_checkout(&command(), &active, &window(ServiceWindowVerdict::Open), &at, true, &open_cart(1), &None, &catalog, &ledger(300, vec![]))
        .expect("every guard passes");
    let declined = DomainError::Invariant("PaymentDeclined: (HTTP 402) Your card was declined.".into());
    let r = complete_checkout(command(), req.clone(), Err(declined.clone()), &ledger(300, vec![]), &window(ServiceWindowVerdict::Open), None, at.clone(), None);
    assert_eq!(r, Err(declined));
    let intent = PaymentRequestOutput { payment_intent_id: "pi_9".into(), client_secret: "s".into() };
    let err = complete_checkout(command(), req, Ok(intent), &ledger(100, vec![]), &window(ServiceWindowVerdict::Open), None, at, None)
        .unwrap_err();
    assert_eq!(rejection_code(&err), Some("InsufficientCustomerCredit".to_string()));
}
