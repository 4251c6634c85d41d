//! What every process-manager leg shares: how a leg ends, the trigger envelope it reacts to, the
//! saga's acting identity, the stream names of the aggregates it delivers to, and the name-based ids
//! that make a re-delivered trigger re-target the same stream.

use vstd::prelude::*;
use crate::outside::{uuid_text, uuid_to_text, uuid_v5, uuid_v5_id};
use vstd::string::StringSliceAdditionalSpecFns;

verus! {

/// How an event leg ended when it did not throw: every step ran, or a benign alternative (an
/// idempotent re-delivery, a no-op branch) ended it, with the reason for the runner's log.
#[derive(Debug, Clone, PartialEq, Eq)]
pub enum Outcome {
    Completed,
    Skipped(String),
}

/// What a read or input hook of a leg answered: the value the next step needs, or a benign skip.
#[derive(Debug, Clone, PartialEq, Eq)]
pub enum HookOutcome<T> {
    Ready(T),
    Skip(String),
}

/// Who an append is stamped with: the user, its type, its domain identity, the correlation of the
/// request and the message that caused it.
#[derive(Debug, Clone, PartialEq, Eq)]
pub struct Actor {
    pub user_id: u128,
    pub user_type: String,
    pub domain_id: Option<u128>,
    pub correlation_id: u128,
    pub cause_id: Option<u128>,
}

/// The trigger of an event leg: the recorded fact's id (the dedup key, and the cause of everything
/// the reaction appends), its correlation, and when it occurred (Unix milliseconds).
#[derive(Debug, Clone, PartialEq, Eq)]
pub struct TriggerEnvelope {
    pub event_id: u128,
    pub correlation_id: u128,
    pub occurred_at_millis: i64,
}

impl TriggerEnvelope {
    /// The envelope of a trigger delivered on a route that stages nothing.
    pub fn unlaned(event_id: u128, correlation_id: u128, occurred_at_millis: i64) -> (e: Self)
        ensures
            e.event_id == event_id,
            e.correlation_id == correlation_id,
            e.occurred_at_millis == occurred_at_millis,
    {
        TriggerEnvelope { event_id, correlation_id, occurred_at_millis }
    }

    /// Two envelopes are the same trigger when their ids and instant match.
    pub fn same_trigger(&self, other: &TriggerEnvelope) -> (b: bool)
        ensures
            b == (self.event_id == other.event_id && self.correlation_id == other.correlation_id
                && self.occurred_at_millis == other.occurred_at_millis),
    {
        self.event_id == other.event_id && self.correlation_id == other.correlation_id
            && self.occurred_at_millis == other.occurred_at_millis
    }
}

/// The URL namespace of name-based UUIDs (RFC 4122), as a 128-bit value.
pub const NAMESPACE_URL: u128 = 0x6ba7b811_9dad_11d1_80b4_00c04fd430c8u128;

/// The user type stamped on non-human system appends.
pub const EXTERNAL_USER_TYPE: &'static str = "EXTERNAL";

/// The fixed system user that stamps saga appends: the URL-namespace UUID of the process managers'
/// URL.
pub fn saga_system_user_id() -> (id: u128)
    ensures
        id == uuid_v5_id(NAMESPACE_URL, "https://captain.food/process-managers".spec_bytes()),
{
    let url = "https://captain.food/process-managers";
    uuid_v5(NAMESPACE_URL, url.as_bytes())
}

/// The saga's acting identity for one trigger: the system user under the external user type,
/// correlated with the trigger and caused by it.
pub fn saga_actor(env: &TriggerEnvelope) -> (a: Actor)
    ensures
        a.user_id == uuid_v5_id(NAMESPACE_URL, "https://captain.food/process-managers".spec_bytes()),
        a.user_type@ == EXTERNAL_USER_TYPE@,
        a.domain_id is None,
        a.correlation_id == env.correlation_id,
        a.cause_id == Some(env.event_id),
{
    Actor {
        user_id: saga_system_user_id(),
        user_type: String::from_str(EXTERNAL_USER_TYPE),
        domain_id: None,
        correlation_id: env.correlation_id,
        cause_id: Some(env.event_id),
    }
}

/// `prefix` followed by the hyphenated text of `id`.
fn stream_of(prefix: &str, id: u128) -> (s: String)
    ensures
        s@ == prefix@ + uuid_text(id),
{
    let mut s = String::from_str(prefix);
    s.append(uuid_to_text(id).as_str());
    s
}

/// The stream an Order lives on.
pub fn order_stream(id: u128) -> (s: String)
    ensures
        s@ == "Order-"@ + uuid_text(id),
{
    stream_of("Order-", id)
}

/// The stream a Cart lives on.
pub fn cart_stream(id: u128) -> (s: String)
    ensures
        s@ == "Cart-"@ + uuid_text(id),
{
    stream_of("Cart-", id)
}

/// The stream a DeliveryJob lives on.
pub fn delivery_job_stream(id: u128) -> (s: String)
    ensures
        s@ == "DeliveryJob-"@ + uuid_text(id),
{
    stream_of("DeliveryJob-", id)
}

/// The stream a Restaurant lives on.
pub fn restaurant_stream(id: u128) -> (s: String)
    ensures
        s@ == "Restaurant-"@ + uuid_text(id),
{
    stream_of("Restaurant-", id)
}

/// The sixteen big-endian bytes of a UUID's value (`Uuid::as_bytes`).
pub open spec fn be_bytes(v: nat, n: nat) -> Seq<u8>
    decreases n,
{
    if n == 0 { Seq::empty() } else { be_bytes(v / 256, (n - 1) as nat).push((v % 256) as u8) }
}

/// The `n` low bytes of `v`, most significant first.
fn be_bytes_exec(v: u128, n: usize) -> (b: Vec<u8>)
    ensures
        b@ == be_bytes(v as nat, n as nat),
    decreases n,
{
    if n == 0 {
        Vec::new()
    } else {
        let mut b = be_bytes_exec(v / 256, n - 1);
        b.push((v % 256) as u8);
        b
    }
}

/// The name-based id of `name` (as a UUID's bytes) in `namespace`.
pub fn uuid_v5_of_id(namespace: u128, id: u128) -> (r: u128)
    ensures
        r == uuid_v5_id(namespace, be_bytes(id as nat, 16)),
{
    let bytes = be_bytes_exec(id, 16);
    uuid_v5(namespace, bytes.as_slice())
}

/// The namespace of the name-based ids a process manager derives, from its URL.
pub fn namespace_of(url: &str) -> (ns: u128)
    ensures
        ns == uuid_v5_id(NAMESPACE_URL, url.spec_bytes()),
{
    uuid_v5(NAMESPACE_URL, url.as_bytes())
}

} // verus!
