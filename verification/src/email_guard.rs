//! The email send-abuse wall: one policy, applied where every magic-link email is sent, that claims
//! each send against a per-address hourly bucket, a per-address daily bucket and a platform-wide
//! daily ceiling — in that order, the first denial refusing. The address reaches the shared counter
//! store only as its keyed HMAC-SHA256, never in the clear.

use vstd::prelude::*;
use vstd::utf8::encode_utf8;
use crate::errors::{field, reject, trim, trim_range, ContextField, ContextValue, DomainError};
use crate::outside::{hex_encode, hex_lower, hmac_sha256, hmac_sha256_tag, is_lower_hex, lemma_hex_lower};
use crate::quota::{QuotaClaim, QuotaDenial, QuotaStore};
use crate::text::chars_of;

verus! {

pub const HOUR_SECONDS: i64 = 3600;
pub const DAY_SECONDS: i64 = 86_400;

/// Default per-address sends per hour.
pub const DEFAULT_MAX_PER_ADDRESS_PER_HOUR: i32 = 3;
/// Default per-address sends per day.
pub const DEFAULT_MAX_PER_ADDRESS_PER_DAY: i32 = 5;
/// Default platform-wide sends per day.
pub const DEFAULT_MAX_SENDS_PER_DAY_GLOBAL: i32 = 200;

/// The development-only HMAC key, used only when no secret is configured.
pub const DEV_ONLY_HMAC_KEY: &'static str = "captain-food-dev-only-email-quota-hmac-key-DO-NOT-USE-IN-PRODUCTION";

/// The platform-wide bucket, namespaced apart from the SMS wall's buckets.
pub const GLOBAL_DAY_KEY: &'static str = "email:global:day";

/// Why an email send was refused, in the policy's own terms.
#[derive(Debug, Clone, PartialEq, Eq)]
pub enum EmailSendRefusal {
    /// Inside the per-address cooldown/cap window.
    TooSoon { retry_after_seconds: i64 },
    /// The per-address daily cap is reached.
    DailyCapReached,
    /// The platform-wide daily ceiling is reached — the kill switch.
    GlobalCeilingReached,
    /// The shared counter could not answer: fail closed.
    StoreUnavailable { detail: String },
}

/// The refusal's reason token.
pub open spec fn reason_spec(r: EmailSendRefusal) -> Seq<char> {
    match r {
        EmailSendRefusal::TooSoon { .. } => "cooldown"@,
        EmailSendRefusal::DailyCapReached => "daily_cap"@,
        EmailSendRefusal::GlobalCeilingReached => "global_ceiling"@,
        EmailSendRefusal::StoreUnavailable { .. } => "store_unavailable"@,
    }
}

/// The refusal a denial of claim `index` becomes: an unreachable store is always
/// `StoreUnavailable` and a cooldown always `TooSoon`; a reached limit is `TooSoon` on the hourly
/// bucket, `DailyCapReached` on the daily one and `GlobalCeilingReached` on the ceiling.
pub open spec fn refusal_for_spec(index: int, denial: QuotaDenial) -> EmailSendRefusal {
    match denial {
        QuotaDenial::Unavailable { detail } => EmailSendRefusal::StoreUnavailable { detail },
        QuotaDenial::Cooldown { retry_after_seconds } => EmailSendRefusal::TooSoon { retry_after_seconds },
        QuotaDenial::LimitReached { retry_after_seconds } => {
            if index == 0 {
                EmailSendRefusal::TooSoon { retry_after_seconds }
            } else if index == 1 {
                EmailSendRefusal::DailyCapReached
            } else {
                EmailSendRefusal::GlobalCeilingReached
            }
        }
    }
}

impl EmailSendRefusal {
    /// The reason token (`cooldown`, `daily_cap`, `global_ceiling`, `store_unavailable`).
    pub fn reason(&self) -> (r: &'static str)
        ensures
            r@ == reason_spec(*self),
    {
        match self {
            EmailSendRefusal::TooSoon { .. } => "cooldown",
            EmailSendRefusal::DailyCapReached => "daily_cap",
            EmailSendRefusal::GlobalCeilingReached => "global_ceiling",
            EmailSendRefusal::StoreUnavailable { .. } => "store_unavailable",
        }
    }

    /// The typed error the SMS wall uses for the same refusal: `RateLimited` (with
    /// `retryAfterSeconds`), `VerificationSendLimitReached`, `VerificationSendCapacityExhausted`,
    /// or — an unreachable limiter being our defect — a repository fault.
    pub fn into_domain_error(self) -> (e: DomainError)
        ensures
            match self {
                EmailSendRefusal::TooSoon { retry_after_seconds } =>
                    e.rejected_code() == Some("RateLimited"@)
                        && e.context_value("retryAfterSeconds"@) == Some(ContextValue::Int(retry_after_seconds))
                        && (e matches DomainError::Rejected { context: c, .. } && c@.len() == 1
                            && c@[0].key@ == "retryAfterSeconds"@
                            && c@[0].value == ContextValue::Int(retry_after_seconds)),
                EmailSendRefusal::DailyCapReached =>
                    e.rejected_code() == Some("VerificationSendLimitReached"@)
                        && (e matches DomainError::Rejected { context: c, .. } && c@.len() == 0),
                EmailSendRefusal::GlobalCeilingReached =>
                    e.rejected_code() == Some("VerificationSendCapacityExhausted"@)
                        && (e matches DomainError::Rejected { context: c, .. } && c@.len() == 0),
                EmailSendRefusal::StoreUnavailable { detail } =>
                    e == DomainError::Repository(e->Repository_0)
                        && e->Repository_0@ == "email send-abuse wall: store unavailable: "@ + detail@,
            },
    {
        match self {
            EmailSendRefusal::TooSoon { retry_after_seconds } => {
                let mut context: Vec<ContextField> = Vec::new();
                context.push(field("retryAfterSeconds", ContextValue::Int(retry_after_seconds)));
                let e = reject("RateLimited", context);
                assert(e->context@[0].key@ == "retryAfterSeconds"@);
                e
            }
            EmailSendRefusal::DailyCapReached => reject("VerificationSendLimitReached", Vec::new()),
            EmailSendRefusal::GlobalCeilingReached => reject("VerificationSendCapacityExhausted", Vec::new()),
            EmailSendRefusal::StoreUnavailable { detail } => {
                let mut m = String::from_str("email send-abuse wall: store unavailable: ");
                m.append(detail.as_str());
                DomainError::Repository(m)
            }
        }
    }
}

/// The HMAC key `from_config` settles on: the trimmed secret's UTF-8 bytes, or the development key
/// when the secret is absent or blank.
pub open spec fn configured_key(secret: Option<Seq<char>>) -> Seq<u8> {
    match secret {
        Some(s) if trim(s).len() > 0 => encode_utf8(trim(s)),
        _ => encode_utf8(DEV_ONLY_HMAC_KEY@),
    }
}

/// The pure send policy: per-address caps plus the global ceiling.
#[derive(Debug, Clone, PartialEq, Eq)]
pub struct EmailSendPolicy {
    pub max_per_address_per_hour: i32,
    pub max_per_address_per_day: i32,
    pub max_per_day_global: i32,
    /// HMAC-SHA256 key hashing the address before it becomes a bucket key.
    pub hmac_key: Vec<u8>,
}

/// The keyed hash of an address under `key`: lowercase hex of its HMAC-SHA256.
pub open spec fn hashed_spec(key: Seq<u8>, email: Seq<char>) -> Seq<char> {
    hex_lower(hmac_sha256_tag(key, encode_utf8(email)))
}

/// The claims `states` went through were granted, up to claim `k`: each claim before `k` was
/// answered `Ok` by the store as it stood, leaving it as the next state.
pub open spec fn claims_granted<S: QuotaStore>(states: Seq<S>, claims: Seq<QuotaClaim>, now_unix: i64, k: int) -> bool {
    forall|i: int| 0 <= i < k ==> #[trigger] S::claim_answer(states[i], states[i + 1], claims[i], now_unix, Ok(()))
}

/// Claim `k` was denied with `d`, refused as `refusal`.
pub open spec fn denied_with<S: QuotaStore>(states: Seq<S>, claims: Seq<QuotaClaim>, now_unix: i64, k: int,
    d: QuotaDenial, refusal: EmailSendRefusal) -> bool
{
    S::claim_answer(states[k], states[k + 1], claims[k], now_unix, Err(d)) && refusal == refusal_for_spec(k, d)
}

/// The store went through `states` (from `start` to `end`) as the wall claimed `claims` in order:
/// all granted, and the send authorised; or granted up to one denial, whose refusal is the answer
/// and after which nothing more was claimed.
pub open spec fn authorize_trace<S: QuotaStore>(start: S, end: S, claims: Seq<QuotaClaim>, now_unix: i64,
    r: Result<(), EmailSendRefusal>, states: Seq<S>) -> bool
{
    &&& states.len() >= 1
    &&& states[0] == start
    &&& states.last() == end
    &&& match r {
        Ok(()) => states.len() == claims.len() + 1 && claims_granted(states, claims, now_unix, claims.len() as int),
        Err(refusal) => {
            let k = states.len() - 2;
            &&& 0 <= k < claims.len()
            &&& claims_granted(states, claims, now_unix, k)
            &&& exists|d: QuotaDenial| #[trigger] denied_with(states, claims, now_unix, k, d, refusal)
        },
    }
}

impl EmailSendPolicy {
    /// The HMAC key the policy hashes addresses under.
    pub open spec fn key(self) -> Seq<u8> {
        self.hmac_key@
    }

    /// Builds the policy from the resolved configuration: an absent cap falls back to its default
    /// (a non-positive one is taken verbatim — it is the kill switch), and an absent or blank secret
    /// falls back to the development key.
    pub fn from_config(
        max_per_address_per_hour: Option<i32>,
        max_per_address_per_day: Option<i32>,
        max_per_day_global: Option<i32>,
        hmac_secret: Option<&str>,
    ) -> (p: Self)
        ensures
            p.max_per_address_per_hour == match max_per_address_per_hour { Some(v) => v, None => DEFAULT_MAX_PER_ADDRESS_PER_HOUR },
            p.max_per_address_per_day == match max_per_address_per_day { Some(v) => v, None => DEFAULT_MAX_PER_ADDRESS_PER_DAY },
            p.max_per_day_global == match max_per_day_global { Some(v) => v, None => DEFAULT_MAX_SENDS_PER_DAY_GLOBAL },
            p.key() == configured_key(match hmac_secret { Some(s) => Some(s@), None => None }),
    {
        let hmac_key = match hmac_secret {
            Some(s) => {
                let v = chars_of(s);
                assert(v@.subrange(0, v@.len() as int) =~= v@);
                let t = trim_range(&v, 0, v.len());
                if t.as_str().is_empty() {
                    DEV_ONLY_HMAC_KEY.as_bytes_vec()
                } else {
                    t.as_str().as_bytes_vec()
                }
            }
            None => DEV_ONLY_HMAC_KEY.as_bytes_vec(),
        };
        EmailSendPolicy {
            max_per_address_per_hour: match max_per_address_per_hour { Some(v) => v, None => DEFAULT_MAX_PER_ADDRESS_PER_HOUR },
            max_per_address_per_day: match max_per_address_per_day { Some(v) => v, None => DEFAULT_MAX_PER_ADDRESS_PER_DAY },
            max_per_day_global: match max_per_day_global { Some(v) => v, None => DEFAULT_MAX_SENDS_PER_DAY_GLOBAL },
            hmac_key,
        }
    }

    /// HMAC-SHA256 of the address as lowercase hex — the only form of the address that reaches the
    /// shared counter store: deterministic per key, not reversible without it.
    pub fn hashed_address(&self, email: &str) -> (h: String)
        ensures
            h@ == hashed_spec(self.key(), email@),
            h@.len() == 64,
            forall|i: int| 0 <= i < h@.len() ==> is_lower_hex(#[trigger] h@[i]),
    {
        let bytes = email.as_bytes_vec();
        let tag = hmac_sha256(self.hmac_key.as_slice(), bytes.as_slice());
        proof {
            lemma_hex_lower(tag@);
        }
        hex_encode(tag.as_slice())
    }

    /// `c` are the bucket claims of one send to `email` (see `claims`).
    pub open spec fn send_claims(self, email: Seq<char>, c: Seq<QuotaClaim>) -> bool {
        &&& c.len() == 3
        &&& c[0].key@ == "email:"@ + hashed_spec(self.key(), email) + ":hour"@
        &&& c[0].window_seconds == HOUR_SECONDS
        &&& c[0].limit == self.max_per_address_per_hour
        &&& c[1].key@ == "email:"@ + hashed_spec(self.key(), email) + ":day"@
        &&& c[1].window_seconds == DAY_SECONDS
        &&& c[1].limit == self.max_per_address_per_day
        &&& c[2].key@ == GLOBAL_DAY_KEY@
        &&& c[2].window_seconds == DAY_SECONDS
        &&& c[2].limit == self.max_per_day_global
        &&& forall|i: int| 0 <= i < 3 ==> (#[trigger] c[i]).backoff_seconds@.len() == 0
    }

    /// The bucket claims for one send to `email`, in enforcement order: the per-address buckets
    /// before the global ceiling, so a per-address refusal never burns the global budget.
    pub fn claims(&self, email: &str) -> (c: Vec<QuotaClaim>)
        ensures
            c@.len() == 3,
            c@[0].key@ == "email:"@ + hashed_spec(self.key(), email@) + ":hour"@,
            c@[0].window_seconds == HOUR_SECONDS,
            c@[0].limit == self.max_per_address_per_hour,
            c@[1].key@ == "email:"@ + hashed_spec(self.key(), email@) + ":day"@,
            c@[1].window_seconds == DAY_SECONDS,
            c@[1].limit == self.max_per_address_per_day,
            c@[2].key@ == GLOBAL_DAY_KEY@,
            c@[2].window_seconds == DAY_SECONDS,
            c@[2].limit == self.max_per_day_global,
            forall|i: int| 0 <= i < 3 ==> (#[trigger] c@[i]).backoff_seconds@.len() == 0,
    {
        let hashed = self.hashed_address(email);
        let mut hour_key = String::from_str("email:");
        hour_key.append(hashed.as_str());
        hour_key.append(":hour");
        let mut day_key = String::from_str("email:");
        day_key.append(hashed.as_str());
        day_key.append(":day");
        let mut c: Vec<QuotaClaim> = Vec::new();
        c.push(QuotaClaim {
            key: hour_key,
            window_seconds: HOUR_SECONDS,
            limit: self.max_per_address_per_hour,
            backoff_seconds: Vec::new(),
        });
        c.push(QuotaClaim {
            key: day_key,
            window_seconds: DAY_SECONDS,
            limit: self.max_per_address_per_day,
            backoff_seconds: Vec::new(),
        });
        c.push(QuotaClaim {
            key: String::from_str(GLOBAL_DAY_KEY),
            window_seconds: DAY_SECONDS,
            limit: self.max_per_day_global,
            backoff_seconds: Vec::new(),
        });
        c
    }

    /// The refusal a denial of claim `index` (in `claims` order) becomes.
    pub fn refusal_for(index: usize, denial: QuotaDenial) -> (r: EmailSendRefusal)
        ensures
            r == refusal_for_spec(index as int, denial),
    {
        match denial {
            QuotaDenial::Unavailable { detail } => EmailSendRefusal::StoreUnavailable { detail },
            QuotaDenial::Cooldown { retry_after_seconds } => EmailSendRefusal::TooSoon { retry_after_seconds },
            QuotaDenial::LimitReached { retry_after_seconds } => {
                if index == 0 {
                    EmailSendRefusal::TooSoon { retry_after_seconds }
                } else if index == 1 {
                    EmailSendRefusal::DailyCapReached
                } else {
                    EmailSendRefusal::GlobalCeilingReached
                }
            }
        }
    }

    /// The wall: claim one send against every bucket, in order; the first denial refuses (mapped by
    /// `refusal_for`), and nothing already granted is un-granted. The store decides each claim.
    pub fn authorize<S: QuotaStore>(&self, store: &mut S, email: &str, now_unix: i64) -> (r: Result<(), EmailSendRefusal>)
        ensures
            exists|c: Seq<QuotaClaim>, states: Seq<S>| #[trigger] self.send_claims(email@, c)
                && #[trigger] authorize_trace(*old(store), *final(store), c, now_unix, r, states),
    {
        let claims = self.claims(email);
        assert(self.send_claims(email@, claims@));
        let ghost start = *store;
        let ghost mut states: Seq<S> = seq![*store];
        let mut index: usize = 0;
        while index < claims.len()
            invariant
                claims@.len() == 3,
                self.send_claims(email@, claims@),
                start == *old(store),
                index <= claims@.len(),
                states.len() == index + 1,
                states[0] == start,
                states.last() == *store,
                claims_granted(states, claims@, now_unix, index as int),
            decreases claims.len() - index,
        {
            let ghost before = states;
            let ghost pre = *store;
            let answered = store.try_claim(&claims[index], now_unix);
            assert(S::claim_answer(pre, *store, claims@[index as int], now_unix, answered));
            match answered {
                Ok(()) => {
                    proof {
                        assert(answered is Ok);
                        assert(answered->Ok_0 == ());
                        assert(answered == Ok::<(), QuotaDenial>(()));
                        states = states.push(*store);
                        assert forall|i: int| 0 <= i < index + 1 implies #[trigger] S::claim_answer(states[i], states[i + 1],
                            claims@[i], now_unix, Ok(())) by {
                            if i < index {
                                assert(states[i] == before[i]);
                                assert(states[i + 1] == before[i + 1]);
                                assert(S::claim_answer(before[i], before[i + 1], claims@[i], now_unix, Ok(())));
                            } else {
                                assert(states[i] == pre);
                                assert(states[i + 1] == *store);
                            }
                        }
                    }
                }
                Err(d) => {
                    let refusal = Self::refusal_for(index, d);
                    proof {
                        states = states.push(*store);
                        assert forall|i: int| 0 <= i < index implies #[trigger] S::claim_answer(states[i], states[i + 1],
                            claims@[i], now_unix, Ok(())) by {
                            assert(states[i] == before[i]);
                            assert(states[i + 1] == before[i + 1]);
                            assert(S::claim_answer(before[i], before[i + 1], claims@[i], now_unix, Ok(())));
                        }
                        assert(states[index as int] == pre);
                        assert(states[index + 1] == *store);
                        assert(denied_with(states, claims@, now_unix, index as int, d, refusal));
                        assert(states[0] == start);
                        assert(states.last() == *store);
                        assert(claims_granted(states, claims@, now_unix, states.len() - 2));
                        assert(authorize_trace(start, *store, claims@, now_unix, Err::<(), EmailSendRefusal>(refusal), states));
                    }
                    return Err(refusal);
                }
            }
            index += 1;
        }
        assert(authorize_trace(start, *store, claims@, now_unix, Ok::<(), EmailSendRefusal>(()), states));
        Ok(())
    }
}

impl Default for EmailSendPolicy {
    fn default() -> (p: Self)
        ensures
            p.max_per_address_per_hour == DEFAULT_MAX_PER_ADDRESS_PER_HOUR,
            p.max_per_address_per_day == DEFAULT_MAX_PER_ADDRESS_PER_DAY,
            p.max_per_day_global == DEFAULT_MAX_SENDS_PER_DAY_GLOBAL,
            p.key() == encode_utf8(DEV_ONLY_HMAC_KEY@),
    {
        EmailSendPolicy {
            max_per_address_per_hour: DEFAULT_MAX_PER_ADDRESS_PER_HOUR,
            max_per_address_per_day: DEFAULT_MAX_PER_ADDRESS_PER_DAY,
            max_per_day_global: DEFAULT_MAX_SENDS_PER_DAY_GLOBAL,
            hmac_key: DEV_ONLY_HMAC_KEY.as_bytes_vec(),
        }
    }
}

/// Lowercase hex text — what `hashed_address` returns — cannot hold any probe with a character
/// outside `0-9a-f`: the raw address (its `@`, its `.`, most of its letters) never shows through.
pub proof fn law_hashed_address_hides_the_address(hashed: Seq<char>, probe: Seq<char>)
    requires
        forall|i: int| 0 <= i < hashed.len() ==> is_lower_hex(#[trigger] hashed[i]),
        exists|j: int| 0 <= j < probe.len() && !is_lower_hex(#[trigger] probe[j]),
    ensures
        !crate::text::contains_run(hashed, probe),
{
    if crate::text::contains_run(hashed, probe) {
        let i = choose|i: int| 0 <= i && i + probe.len() <= hashed.len()
            && #[trigger] hashed.subrange(i, i + probe.len()) == probe;
        let j = choose|j: int| 0 <= j < probe.len() && !is_lower_hex(#[trigger] probe[j]);
        assert(hashed.subrange(i, i + probe.len())[j] == hashed[i + j]);
    }
}

/// For a 64-digit hashed address, the three buckets of one send are distinct, and the ceiling is
/// namespaced apart from the SMS wall's `global:day`.
pub proof fn law_claim_keys_are_distinct(hashed: Seq<char>)
    requires
        hashed.len() == 64,
    ensures
        "email:"@ + hashed + ":hour"@ != "email:"@ + hashed + ":day"@,
        "email:"@ + hashed + ":day"@ != GLOBAL_DAY_KEY@,
        "email:"@ + hashed + ":hour"@ != GLOBAL_DAY_KEY@,
        GLOBAL_DAY_KEY@ != "global:day"@,
{
    reveal_strlit("email:");
    reveal_strlit(":hour");
    reveal_strlit(":day");
    reveal_strlit("email:global:day");
    reveal_strlit("global:day");
    assert(("email:"@ + hashed + ":hour"@).len() != ("email:"@ + hashed + ":day"@).len());
    assert(("email:"@ + hashed + ":day"@).len() != GLOBAL_DAY_KEY@.len());
    assert(("email:"@ + hashed + ":hour"@).len() != GLOBAL_DAY_KEY@.len());
    assert(GLOBAL_DAY_KEY@.len() != "global:day"@.len());
}

} // verus!
