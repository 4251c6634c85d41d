//! What the command handlers share, and the decisions of the customer's phone verification:
//! creating a stream only when it is absent, recording inbound facts once, the acceptance deadline of
//! an order, the register-or-identify of a verified phone, and the currency and phone shapes.

use vstd::prelude::*;
use crate::auth_sessions::ParkedAuthSession;
use crate::errors::DomainError;
use crate::ports::{invariant_starts_with, is_version_conflict, VERSION_CONFLICT_PREFIX};
use crate::process_managers::Actor;

verus! {

/// Did a creation actually create the aggregate, or was it already there?
#[derive(Debug, Clone, Copy, PartialEq, Eq, Structural)]
pub enum Created {
    /// The stream was empty and the birth events were appended.
    Yes,
    /// The aggregate already existed under this id: nothing was written.
    No,
}

/// The event-store port: a stream's facts with its version, and an optimistic append.
pub trait EventStore<E>: Sized {
    /// Whether `r` is an answer the store may give for loading the stream. Nothing is promised by
    /// default; an implementation that promises more says so here.
    open spec fn load_answer(&self, stream_name: Seq<char>, r: Result<(Vec<E>, i64), DomainError>) -> bool {
        true
    }

    /// Whether `r` is an answer the store may give to appending `events` to the stream at
    /// `expected_version` when it stood as `before`, leaving it as `after`. Nothing is promised by
    /// default; an implementation that promises more says so here.
    open spec fn append_answer(before: Self, after: Self, stream_name: Seq<char>, expected_version: i64, events: Vec<E>,
        actor: Actor, r: Result<i64, DomainError>) -> bool
    {
        true
    }

    /// The stream's facts and its current version (0 for an empty stream).
    fn load(&self, stream_name: &str) -> (r: Result<(Vec<E>, i64), DomainError>)
        ensures
            self.load_answer(stream_name@, r);

    /// Appends `events` if the stream is at `expected_version`; answers the new version.
    fn append(&mut self, stream_name: &str, expected_version: i64, events: Vec<E>, actor: &Actor) -> (r: Result<i64, DomainError>)
        ensures
            Self::append_answer(*old(self), *final(self), stream_name@, expected_version, events, *actor, r);
}

/// What a creation answers once the append answered (see `creation_outcome`).
pub open spec fn creation_result(appended: Result<i64, DomainError>, r: Result<Created, DomainError>) -> bool {
    &&& (appended is Ok ==> r == Ok::<Created, DomainError>(Created::Yes))
    &&& (appended is Err && invariant_starts_with(appended->Err_0, VERSION_CONFLICT_PREFIX@)
            ==> r == Ok::<Created, DomainError>(Created::No))
    &&& (appended is Err && !invariant_starts_with(appended->Err_0, VERSION_CONFLICT_PREFIX@)
            ==> r == Err::<Created, DomainError>(appended->Err_0))
}

/// What a creation answers once the append answered: appended is `Yes`; losing the race (the
/// optimistic-concurrency clash) is `No` — the aggregate exists, just not because of us; any other
/// failure is handed back.
pub fn creation_outcome(appended: Result<i64, DomainError>) -> (r: Result<Created, DomainError>)
    ensures
        creation_result(appended, r),
{
    match appended {
        Ok(_) => Ok(Created::Yes),
        Err(e) => {
            if is_version_conflict(&e) {
                Ok(Created::No)
            } else {
                Err(e)
            }
        }
    }
}

/// Creates an aggregate only if its stream is empty: a stream past version 0 answers `No` without
/// writing; otherwise the birth events are appended at version 0 and `creation_outcome` decides.
pub fn create_if_absent<E, S: EventStore<E>>(store: &mut S, stream_name: &str, events: Vec<E>, actor: &Actor)
    -> (r: Result<Created, DomainError>)
    ensures
        exists|l: Result<(Vec<E>, i64), DomainError>| #[trigger] old(store).load_answer(stream_name@, l) && match l {
            Err(e) => r == Err::<Created, DomainError>(e) && *final(store) == *old(store),
            Ok(loaded) => if loaded.1 > 0 {
                r == Ok::<Created, DomainError>(Created::No) && *final(store) == *old(store)
            } else {
                exists|a: Result<i64, DomainError>|
                    #[trigger] S::append_answer(*old(store), *final(store), stream_name@, 0, events, *actor, a)
                    && creation_result(a, r)
            },
        },
{
    let loaded = store.load(stream_name);
    let version = match loaded {
        Err(e) => {
            return Err(e);
        }
        Ok((_existing, version)) => version,
    };
    if version > 0 {
        return Ok(Created::No);
    }
    let appended = store.append(stream_name, 0, events, actor);
    creation_outcome(appended)
}

/// How recording an inbound fact ended.
#[derive(Debug, Clone, Copy, PartialEq, Eq, Structural)]
pub enum RecordOutcome {
    Recorded,
    AlreadyRecorded,
    NoChange,
    Updated,
}

/// Recording an inbound fact is idempotent: when the stream's fold already records it (or, for a
/// stream with no fold yet, an identical fact is on it), nothing is appended and the answer is
/// `AlreadyRecorded`; otherwise the fact is appended (`None`, then `Recorded`).
pub fn record_decision(fold_already_records: Option<bool>, stream_holds_identical: bool) -> (r: Option<RecordOutcome>)
    ensures
        r == (match fold_already_records {
            Some(true) => Some(RecordOutcome::AlreadyRecorded),
            Some(false) => None,
            None => if stream_holds_identical { Some(RecordOutcome::AlreadyRecorded) } else { None },
        }),
{
    match fold_already_records {
        Some(true) => Some(RecordOutcome::AlreadyRecorded),
        Some(false) => None,
        None => {
            if stream_holds_identical {
                Some(RecordOutcome::AlreadyRecorded)
            } else {
                None
            }
        }
    }
}

/// What one delivered acceptance deadline decided.
#[derive(Debug, Clone, Copy, PartialEq, Eq, Structural)]
pub enum AcceptanceTimeoutOutcome {
    /// Switch on, order still placed: the timeout is appended and the order cancelled.
    Cancelled,
    /// Switch off (shadow), order still placed: the same guard decided it would cancel; nothing is
    /// appended.
    WouldCancel,
    /// The order is no longer placed (accepted, rejected or cancelled first).
    NotPlaced,
    /// A re-delivered deadline: the order already timed out.
    AlreadyTimedOut,
    /// The order's stream is empty: nothing left to expire.
    NoOrder,
}

/// The acceptance-deadline guard: a timeout already on the stream is a duplicate; no order is a
/// no-op; an order no longer placed is left alone; a still-placed order is cancelled when the switch is
/// on (the only outcome that appends), and would be when it is off.
pub open spec fn acceptance_timeout_spec(already_timed_out: bool, still_placed: Option<bool>, enforce: bool)
    -> AcceptanceTimeoutOutcome
{
    if already_timed_out {
        AcceptanceTimeoutOutcome::AlreadyTimedOut
    } else {
        match still_placed {
            None => AcceptanceTimeoutOutcome::NoOrder,
            Some(placed) => if !placed {
                AcceptanceTimeoutOutcome::NotPlaced
            } else if enforce {
                AcceptanceTimeoutOutcome::Cancelled
            } else {
                AcceptanceTimeoutOutcome::WouldCancel
            },
        }
    }
}

/// The acceptance-deadline guard (see `acceptance_timeout_spec`).
pub fn record_order_acceptance_timeout(already_timed_out: bool, still_placed: Option<bool>, enforce: bool)
    -> (r: AcceptanceTimeoutOutcome)
    ensures
        r == acceptance_timeout_spec(already_timed_out, still_placed, enforce),
{
    if already_timed_out {
        return AcceptanceTimeoutOutcome::AlreadyTimedOut;
    }
    match still_placed {
        None => AcceptanceTimeoutOutcome::NoOrder,
        Some(placed) => {
            if !placed {
                AcceptanceTimeoutOutcome::NotPlaced
            } else if enforce {
                AcceptanceTimeoutOutcome::Cancelled
            } else {
                AcceptanceTimeoutOutcome::WouldCancel
            }
        }
    }
}

/// The switch governs the append alone: under either position the same guard decides, so an order
/// the enforced switch cancels is exactly one the shadow switch reports it would cancel — a still-placed
/// order whose deadline has not already been recorded — and every other outcome is the same.
pub proof fn law_switch_governs_only_the_append(already_timed_out: bool, still_placed: Option<bool>)
    ensures
        acceptance_timeout_spec(already_timed_out, still_placed, true) == AcceptanceTimeoutOutcome::Cancelled
            <==> acceptance_timeout_spec(already_timed_out, still_placed, false) == AcceptanceTimeoutOutcome::WouldCancel,
        acceptance_timeout_spec(already_timed_out, still_placed, true) == AcceptanceTimeoutOutcome::Cancelled
            <==> (!already_timed_out && still_placed == Some(true)),
        acceptance_timeout_spec(already_timed_out, still_placed, true) != AcceptanceTimeoutOutcome::Cancelled
            ==> acceptance_timeout_spec(already_timed_out, still_placed, true)
                == acceptance_timeout_spec(already_timed_out, still_placed, false),
{
}

// ---------------------------------------------------------------------------------------------
// Shape checks
// ---------------------------------------------------------------------------------------------

/// An ISO 4217 code has the shape of exactly three uppercase ASCII letters.
pub open spec fn iso4217_shaped(code: Seq<char>) -> bool {
    code.len() == 3 && forall|i: int| 0 <= i < 3 ==> 'A' <= #[trigger] code[i] <= 'Z'
}

/// Whether `currency` has the ISO 4217 shape.
pub fn is_valid_iso4217(currency: &str) -> (b: bool)
    ensures
        b == iso4217_shaped(currency@),
{
    let n = currency.unicode_len();
    if n != 3 {
        return false;
    }
    let mut i: usize = 0;
    while i < 3
        invariant
            n == currency@.len() == 3,
            i <= 3,
            forall|j: int| 0 <= j < i ==> 'A' <= #[trigger] currency@[j] <= 'Z',
        decreases 3 - i,
    {
        let c = currency.get_char(i);
        if !('A' <= c && c <= 'Z') {
            return false;
        }
        i += 1;
    }
    true
}

/// `s` with its leading `'0'`s removed.
pub open spec fn without_leading_zeros(s: Seq<char>) -> Seq<char>
    decreases s.len(),
{
    if s.len() > 0 && s[0] == '0' { without_leading_zeros(s.drop_first()) } else { s }
}

/// The canonical E.164 phone number: the dialing code followed by the national number without its
/// trunk zeros (`+33` and `0612345678` give `+33612345678`).
pub fn canonical_phone(dialing_code: &str, national_number: &str) -> (p: String)
    ensures
        p@ == dialing_code@ + without_leading_zeros(national_number@),
{
    let v = crate::text::chars_of(national_number);
    let mut k: usize = 0;
    assert(v@.subrange(0, v@.len() as int) =~= v@);
    while k < v.len() && v[k] == '0'
        invariant
            k <= v@.len(),
            without_leading_zeros(v@.subrange(k as int, v@.len() as int)) == without_leading_zeros(v@),
        decreases v.len() - k,
    {
        proof {
            let rest = v@.subrange(k as int, v@.len() as int);
            assert(rest.drop_first() =~= v@.subrange(k as int + 1, v@.len() as int));
        }
        k += 1;
    }
    proof {
        assert(v@.subrange(0, v@.len() as int) =~= v@);
    }
    let mut p = String::from_str(dialing_code);
    let mut i = k;
    while i < v.len()
        invariant
            k <= i <= v@.len(),
            p@ == dialing_code@ + v@.subrange(k as int, i as int),
        decreases v.len() - i,
    {
        crate::text::push_char(&mut p, v[i]);
        i += 1;
        assert(p@ =~= dialing_code@ + v@.subrange(k as int, i as int));
    }
    proof {
        let rest = v@.subrange(k as int, v@.len() as int);
        if rest.len() > 0 {
            assert(rest[0] == v@[k as int]);
        }
        assert(without_leading_zeros(rest) == rest);
    }
    p
}

// ---------------------------------------------------------------------------------------------
// Phone verification: register or identify
// ---------------------------------------------------------------------------------------------

/// What a phone verification resolved: the authoritative customer id, and whether a new customer
/// was registered.
#[derive(Debug, Clone, Copy, PartialEq, Eq)]
pub struct VerifyPhoneOutcome {
    pub customer_id: u128,
    pub created: bool,
}

/// The authoritative customer of a verified phone: the existing customer of a returning phone (the
/// client-proposed id is discarded), else the proposed one.
pub fn resolved_customer(existing: Option<u128>, proposed: u128) -> (id: u128)
    ensures
        id == match existing { Some(e) => e, None => proposed },
{
    match existing {
        Some(e) => e,
        None => proposed,
    }
}

/// The refreshed session a claim-stamped login rotates into.
#[derive(Debug, Clone, PartialEq, Eq)]
pub struct RotatedSession {
    pub access_token: String,
    pub refresh_token: Option<String>,
    pub expires_in: Option<i64>,
}

/// After the claim stamp: only a stamped token is ever parked, and only when there is a refresh
/// token to rotate and an acceptance message to key the parking by; the answer is what to rotate and
/// under which message.
pub fn rotation_after_stamp(stamped: bool, refresh_token: Option<String>, cause_id: Option<u128>)
    -> (r: Option<(String, u128)>)
    ensures
        r is Some <==> (stamped && refresh_token is Some && cause_id is Some),
        r matches Some((t, m)) ==> t == refresh_token->0 && m == cause_id->0,
{
    if !stamped {
        return None;
    }
    match (refresh_token, cause_id) {
        (Some(t), Some(m)) => Some((t, m)),
        _ => None,
    }
}

/// The rotated session parked for cookie pickup, keyed by the acceptance message and owned by the
/// verifying session.
pub fn parked_session(message_id: u128, session_id: u128, rotated: RotatedSession) -> (p: ParkedAuthSession)
    ensures
        p.message_id == message_id,
        p.session_id == Some(session_id),
        p.access_token == rotated.access_token,
        p.refresh_token == rotated.refresh_token,
        p.expires_in == rotated.expires_in,
{
    ParkedAuthSession {
        message_id,
        session_id: Some(session_id),
        access_token: rotated.access_token,
        refresh_token: rotated.refresh_token,
        expires_in: rotated.expires_in,
    }
}

/// A fact on a customer's stream of a verified phone.
#[derive(Debug, Clone, PartialEq, Eq)]
pub enum PhoneVerified {
    /// A returning phone: the existing customer is identified in this session.
    CustomerIdentified { customer_id: u128, auth_ref: String, session_id: u128 },
    /// A new phone: the customer is registered (no email: it is verified separately).
    CustomerRegistered {
        customer_id: u128,
        auth_ref: Option<String>,
        phone: String,
        display_name: Option<String>,
        email: Option<String>,
        locale: Option<String>,
        timezone: Option<String>,
    },
}

/// The verification's fact: `CustomerIdentified` on the existing customer's stream for a returning
/// phone, `CustomerRegistered` for the proposed id of a new one.
pub open spec fn phone_verified_fact(existing: Option<u128>, proposed: u128, auth_ref: String, session_id: u128,
    phone: String, display_name: Option<String>, locale: Option<String>, timezone: Option<String>) -> PhoneVerified
{
    match existing {
        Some(e) => PhoneVerified::CustomerIdentified { customer_id: e, auth_ref, session_id },
        None => PhoneVerified::CustomerRegistered {
            customer_id: proposed,
            auth_ref: Some(auth_ref),
            phone,
            display_name,
            email: None,
            locale,
            timezone,
        },
    }
}

/// The verification's fact (see `phone_verified_fact`).
pub fn phone_verified(existing: Option<u128>, proposed: u128, auth_ref: String, session_id: u128, phone: String,
    display_name: Option<String>, locale: Option<String>, timezone: Option<String>) -> (f: PhoneVerified)
    ensures
        f == phone_verified_fact(existing, proposed, auth_ref, session_id, phone, display_name, locale, timezone),
{
    match existing {
        Some(e) => PhoneVerified::CustomerIdentified { customer_id: e, auth_ref, session_id },
        None => PhoneVerified::CustomerRegistered {
            customer_id: proposed,
            auth_ref: Some(auth_ref),
            phone,
            display_name,
            email: None,
            locale,
            timezone,
        },
    }
}

/// What the verification answers: the existing customer, not created; or the proposed one, created
/// only if the registration actually created its stream.
pub fn verify_phone_outcome(existing: Option<u128>, proposed: u128, created: Created) -> (o: VerifyPhoneOutcome)
    ensures
        existing matches Some(e) ==> (o == (VerifyPhoneOutcome { customer_id: e, created: false })),
        existing is None ==> (o == (VerifyPhoneOutcome { customer_id: proposed, created: created == Created::Yes })),
{
    match existing {
        Some(e) => VerifyPhoneOutcome { customer_id: e, created: false },
        None => VerifyPhoneOutcome { customer_id: proposed, created: created == Created::Yes },
    }
}

/// The session parked once the claim stamp and the rotation went through: none when the stamp
/// failed, when there is no refresh token to rotate or no acceptance message to key the parking by,
/// or when the rotation failed; else the rotated session, keyed by the message, owned by the
/// verifying session.
pub open spec fn session_to_park(stamp: Result<(), DomainError>, refresh_token: Option<String>, cause_id: Option<u128>,
    session_id: u128, rotated: Option<Result<RotatedSession, DomainError>>) -> Option<ParkedAuthSession>
{
    if stamp is Ok && refresh_token is Some && cause_id is Some {
        match rotated {
            Some(Ok(rs)) => Some(ParkedAuthSession {
                message_id: cause_id->0,
                session_id: Some(session_id),
                access_token: rs.access_token,
                refresh_token: rs.refresh_token,
                expires_in: rs.expires_in,
            }),
            _ => None,
        }
    } else {
        None
    }
}

/// What a phone verification records: its fact, and the session to park, if any.
#[derive(Debug, Clone, PartialEq, Eq)]
pub struct PhoneVerification {
    pub fact: PhoneVerified,
    pub to_park: Option<ParkedAuthSession>,
}

/// The verification of a phone once its OTP was verified, in order: the customer resolved (the
/// existing one of a returning phone, else the proposed id — see `resolved_customer`, which the
/// claim stamp carries); then the claim stamp (`stamp`, its answer), the rotation of the session
/// (`rotated`: what refreshing it answered, when it was asked) and the parking of the rotated
/// session; and the verification's fact. The session steps decide only what is parked — only a
/// stamped, rotated token ever is — and never the fact: the verification stands whatever they answer.
pub fn verify_phone_leg(existing: Option<u128>, proposed: u128, auth_ref: String, session_id: u128, phone: String,
    display_name: Option<String>, locale: Option<String>, timezone: Option<String>, stamp: &Result<(), DomainError>,
    refresh_token: Option<String>, cause_id: Option<u128>, rotated: Option<Result<RotatedSession, DomainError>>)
    -> (r: PhoneVerification)
    ensures
        r.fact == phone_verified_fact(existing, proposed, auth_ref, session_id, phone, display_name, locale, timezone),
        r.to_park == session_to_park(*stamp, refresh_token, cause_id, session_id, rotated),
{
    let to_park = match rotation_after_stamp(stamp.is_ok(), refresh_token, cause_id) {
        None => None,
        Some((_token, message_id)) => match rotated {
            Some(Ok(rs)) => Some(parked_session(message_id, session_id, rs)),
            _ => None,
        },
    };
    let fact = phone_verified(existing, proposed, auth_ref, session_id, phone, display_name, locale, timezone);
    PhoneVerification { fact, to_park }
}

/// Phone verification stands whatever the session steps answer: two verifications of the same phone
/// whose claim stamp, rotation or parking answered differently record the same fact; and a token is
/// parked only when the stamp and the rotation went through.
pub proof fn law_verification_stands_whatever_the_session_steps(existing: Option<u128>, proposed: u128,
    auth_ref: String, session_id: u128, phone: String, display_name: Option<String>, locale: Option<String>,
    timezone: Option<String>, refresh_token: Option<String>, cause_id: Option<u128>,
    stamp1: Result<(), DomainError>, rotated1: Option<Result<RotatedSession, DomainError>>, r1: PhoneVerification,
    stamp2: Result<(), DomainError>, rotated2: Option<Result<RotatedSession, DomainError>>, r2: PhoneVerification)
    requires
        r1.fact == phone_verified_fact(existing, proposed, auth_ref, session_id, phone, display_name, locale, timezone),
        r1.to_park == session_to_park(stamp1, refresh_token, cause_id, session_id, rotated1),
        r2.fact == phone_verified_fact(existing, proposed, auth_ref, session_id, phone, display_name, locale, timezone),
        r2.to_park == session_to_park(stamp2, refresh_token, cause_id, session_id, rotated2),
    ensures
        r1.fact == r2.fact,
        r1.to_park is Some ==> stamp1 is Ok && (rotated1 matches Some(Ok(_))),
        stamp1 is Err ==> r1.to_park is None,
{
}

} // verus!
