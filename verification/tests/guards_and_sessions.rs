use std::collections::HashMap;

use application::auth_sessions::{AuthSessionStore, MemAuthSessionStore, NoopAuthSessionStore, ParkedAuthSession};
use application::email_guard::{EmailSendPolicy, EmailSendRefusal, GLOBAL_DAY_KEY};
use application::errors::{rejection_code, ContextField, ContextValue, DomainError};
use application::quota::{QuotaClaim, QuotaDenial, QuotaStore};

/// A fixed-window counter store: one counter per key and window start.
#[derive(Default)]
struct CountingQuotaStore {
    counts: HashMap<(String, i64), i32>,
}

impl QuotaStore for CountingQuotaStore {
    fn try_claim(&mut self, claim: &QuotaClaim, now_unix: i64) -> Result<(), QuotaDenial> {
        let window = now_unix - now_unix.rem_euclid(claim.window_seconds);
        let count = self.counts.entry((claim.key.clone(), window)).or_insert(0);
        if *count >= claim.limit {
            return Err(QuotaDenial::LimitReached { retry_after_seconds: window + claim.window_seconds - now_unix });
        }
        *count += 1;
        Ok(())
    }
}

struct DownStore;

impl QuotaStore for DownStore {
    fn try_claim(&mut self, _claim: &QuotaClaim, _now_unix: i64) -> Result<(), QuotaDenial> {
        Err(QuotaDenial::Unavailable { detail: "connection refused".into() })
    }
}

#[test]
fn a_served_address_is_authorised_and_a_second_bucket_still_shares_one_counter() {
    let mut store = CountingQuotaStore::default();
    let policy = EmailSendPolicy::default();
    policy.authorize(&mut store, "owner@pizzaroma.fr", 0).expect("first send authorised");
}

#[test]
fn the_quota_key_never_contains_the_raw_address_and_is_stable_and_keyed() {
    let policy = EmailSendPolicy::default();
    let email = "owner@pizzaroma.fr";
    let hashed = policy.hashed_address(email);
    assert!(!hashed.contains("owner"), "the raw local-part leaked into the quota key: {hashed}");
    assert!(!hashed.contains("pizzaroma"), "the raw domain leaked into the quota key: {hashed}");
    assert_eq!(hashed, policy.hashed_address(email), "the SAME address must hash to the SAME bucket");

    let other = "stranger@example.com";
    assert_ne!(hashed, policy.hashed_address(other), "distinct addresses must hash apart");

    let other_key = EmailSendPolicy::from_config(None, None, None, Some("a-different-secret"));
    assert_ne!(hashed, other_key.hashed_address(email), "the hash must depend on the configured key, not just the address");
}

#[test]
fn the_per_address_hourly_cap_refuses_the_next_send_as_rate_limited() {
    let mut store = CountingQuotaStore::default();
    let policy = EmailSendPolicy { max_per_address_per_hour: 1, ..EmailSendPolicy::default() };
    let email = "owner@pizzaroma.fr";
    policy.authorize(&mut store, email, 0).expect("first send authorised");
    let refusal = policy.authorize(&mut store, email, 1).expect_err("second send refused");
    assert_eq!(refusal.reason(), "cooldown");
    assert_eq!(rejection_code(&refusal.into_domain_error()), Some("RateLimited".to_string()));
}

#[test]
fn the_global_ceiling_refuses_a_never_before_seen_address() {
    let mut store = CountingQuotaStore::default();
    let policy = EmailSendPolicy { max_per_day_global: 0, ..EmailSendPolicy::default() };
    let refusal = policy.authorize(&mut store, "fresh@pizzaroma.fr", 0).expect_err("ceiling spent");
    assert_eq!(refusal.reason(), "global_ceiling");
    assert_eq!(rejection_code(&refusal.into_domain_error()), Some("VerificationSendCapacityExhausted".to_string()));
}

#[test]
fn the_email_global_bucket_is_namespaced() {
    let policy = EmailSendPolicy::default();
    let claims = policy.claims("x@example.com");
    assert_eq!(claims.len(), 3);
    assert_eq!(claims[2].key, GLOBAL_DAY_KEY);
    assert_eq!(GLOBAL_DAY_KEY, "email:global:day");
    assert_ne!(claims[2].key, "global:day");
    let hashed = policy.hashed_address("x@example.com");
    assert_eq!(claims[0].key, format!("email:{hashed}:hour"));
    assert_eq!(claims[1].key, format!("email:{hashed}:day"));
}

#[test]
fn the_daily_cap_and_an_unreachable_store_refuse_in_their_own_terms() {
    let mut store = CountingQuotaStore::default();
    let policy = EmailSendPolicy { max_per_address_per_day: 1, ..EmailSendPolicy::default() };
    policy.authorize(&mut store, "a@b.fr", 0).unwrap();
    let refusal = policy.authorize(&mut store, "a@b.fr", 7200).unwrap_err();
    assert_eq!(refusal, EmailSendRefusal::DailyCapReached);
    assert_eq!(refusal.reason(), "daily_cap");
    let refusal = policy.authorize(&mut DownStore, "a@b.fr", 0).unwrap_err();
    assert_eq!(refusal.reason(), "store_unavailable");
}

#[test]
fn a_blank_secret_falls_back_to_the_development_key() {
    let blank = EmailSendPolicy::from_config(Some(1), None, Some(0), Some("   "));
    let default = EmailSendPolicy::default();
    assert_eq!(blank.hashed_address("a@b.fr"), default.hashed_address("a@b.fr"));
    assert_eq!(blank.max_per_address_per_hour, 1);
    assert_eq!(blank.max_per_day_global, 0);
    assert_eq!(blank.max_per_address_per_day, default.max_per_address_per_day);
    let padded = EmailSendPolicy::from_config(None, None, None, Some("  k  "));
    let bare = EmailSendPolicy::from_config(None, None, None, Some("k"));
    assert_eq!(padded.hmac_key, bare.hmac_key);
}

fn parked(message_id: u128, session_id: Option<u128>) -> ParkedAuthSession {
    ParkedAuthSession {
        message_id,
        session_id,
        access_token: "jwt".into(),
        refresh_token: Some("refresh".into()),
        expires_in: Some(3600),
    }
}

#[test]
fn claim_is_single_read_and_ownership_scoped() {
    let mut store = MemAuthSessionStore::new();
    let mid = 0x51;
    let owner = 0x0A;
    store.park(parked(mid, Some(owner))).unwrap();
    assert!(store.claim(mid, Some(0x0B)).unwrap().is_none());
    assert!(store.claim(mid, None).unwrap().is_none());
    let got = store.claim(mid, Some(owner)).unwrap().expect("owner claims");
    assert_eq!(got.access_token, "jwt");
    assert!(store.claim(mid, Some(owner)).unwrap().is_none());
}

#[test]
fn noop_store_parks_without_error_and_never_yields() {
    let mut store = NoopAuthSessionStore;
    store.park(parked(0x52, None)).unwrap();
    assert!(store.claim(0x53, None).unwrap().is_none());
}

#[test]
fn a_re_park_replaces_the_row_of_its_message() {
    let mut store = MemAuthSessionStore::new();
    store.park(parked(1, Some(9))).unwrap();
    let mut again = parked(1, Some(9));
    again.access_token = "jwt-2".into();
    store.park(again).unwrap();
    assert_eq!(store.parked().len(), 1);
    assert_eq!(store.claim(1, Some(9)).unwrap().unwrap().access_token, "jwt-2");
}

#[test]
fn each_refusal_maps_to_its_typed_error_with_exactly_its_context() {
    match (EmailSendRefusal::TooSoon { retry_after_seconds: 42 }).into_domain_error() {
        DomainError::Rejected { code, context } => {
            assert_eq!(code, "RateLimited");
            assert_eq!(context, vec![ContextField { key: "retryAfterSeconds".into(), value: ContextValue::Int(42) }]);
        }
        other => panic!("expected a rejection, got {other:?}"),
    }
    assert_eq!(
        EmailSendRefusal::DailyCapReached.into_domain_error(),
        DomainError::Rejected { code: "VerificationSendLimitReached".into(), context: vec![] }
    );
    assert_eq!(
        EmailSendRefusal::GlobalCeilingReached.into_domain_error(),
        DomainError::Rejected { code: "VerificationSendCapacityExhausted".into(), context: vec![] }
    );
    assert_eq!(
        (EmailSendRefusal::StoreUnavailable { detail: "pool closed".into() }).into_domain_error(),
        DomainError::Repository("email send-abuse wall: store unavailable: pool closed".into())
    );
}
