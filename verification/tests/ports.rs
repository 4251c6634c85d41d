use application::errors::{rejection_code, DomainError};
use application::ports::{
    gateway_status_of, is_payment_declined, is_payment_gateway_refused, is_version_conflict, payment_declined,
    payment_gateway_refused, version_conflict, PAYMENT_DECLINED_CODE, PAYMENT_GATEWAY_REFUSED_PREFIX,
};

#[test]
fn the_status_round_trips_through_the_message() {
    for status in [400u16, 401, 402, 409, 429] {
        let err = payment_gateway_refused(Some(status), "stripe create_payment_intent refused");
        assert!(is_payment_gateway_refused(&err), "{err:?}");
        assert_eq!(gateway_status_of(&err), Some(status), "{err:?}");
    }
}

#[test]
fn the_status_round_trips_for_a_decline_too() {
    for status in [402u16, 400] {
        let err = payment_declined(Some(status), "Your card was declined. (card_declined)");
        assert!(is_payment_declined(&err), "{err:?}");
        assert!(!is_payment_gateway_refused(&err), "a decline is not a refusal: {err:?}");
        assert_eq!(gateway_status_of(&err), Some(status), "{err:?}");
    }
}

#[test]
fn a_decline_stays_readable_as_its_catalogued_code() {
    let err = payment_declined(Some(402), "Your card was declined.");
    assert_eq!(rejection_code(&err), Some(PAYMENT_DECLINED_CODE.to_string()));
}

#[test]
fn a_status_shaped_group_later_in_the_prose_is_not_read_back() {
    let err = payment_declined(None, "issuer replied (HTTP 500) while authorising");
    assert!(is_payment_declined(&err));
    assert_eq!(gateway_status_of(&err), None, "{err:?}");
}

#[test]
fn a_refusal_with_no_call_carries_no_status() {
    let err = payment_gateway_refused(None, "capture gateway not configured");
    assert!(is_payment_gateway_refused(&err));
    assert_eq!(gateway_status_of(&err), None);
}

#[test]
fn the_code_stays_readable_with_a_status_attached() {
    let err = payment_gateway_refused(Some(401), "stripe create_payment_intent refused");
    assert_eq!(rejection_code(&err), Some(PAYMENT_GATEWAY_REFUSED_PREFIX.to_string()));
}

#[test]
fn an_unrelated_invariant_is_not_a_gateway_refusal() {
    let err = DomainError::Invariant("cart is empty".into());
    assert!(!is_payment_gateway_refused(&err));
    assert!(!is_payment_declined(&err));
    assert_eq!(gateway_status_of(&err), None);
}

#[test]
fn the_gateway_message_spells_the_status_after_the_code() {
    let err = payment_gateway_refused(Some(409), "idempotency clash");
    assert_eq!(err, DomainError::Invariant("PaymentGatewayRefused: (HTTP 409) idempotency clash".into()));
    let err = payment_declined(None, "no funds");
    assert_eq!(err, DomainError::Invariant("PaymentDeclined: no funds".into()));
}

#[test]
fn a_version_conflict_is_built_and_recognised() {
    let err = version_conflict("Cart-1", 3);
    assert_eq!(err, DomainError::Invariant("version conflict: stream 'Cart-1' is past version 3".into()));
    assert!(is_version_conflict(&err));
    assert!(!is_version_conflict(&DomainError::Repository("version conflict".into())));
    assert!(!is_version_conflict(&DomainError::Invariant("CartEmpty: no lines".into())));
}

#[test]
fn rejection_codes_are_read_from_every_shape() {
    assert_eq!(rejection_code(&DomainError::Invariant("  CartEmpty : no lines".into())), Some("CartEmpty".to_string()));
    assert_eq!(rejection_code(&DomainError::Invariant("NoColonHere".into())), Some("NoColonHere".to_string()));
    assert_eq!(rejection_code(&DomainError::Repository("db down".into())), None);
    let rejected = DomainError::Rejected { code: "CartNotFound".into(), context: Vec::new() };
    assert_eq!(rejection_code(&rejected), Some("CartNotFound".to_string()));
}
