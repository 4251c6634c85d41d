//! The generic send-quota primitives the send-abuse walls share: a bucket claim, the store's denial,
//! and the store port itself (a counter store the infrastructure implements).

use vstd::prelude::*;

verus! {

/// One bucket to claim a send against: `limit` sends per `window_seconds` under `key`.
#[derive(Debug, Clone, PartialEq, Eq)]
pub struct QuotaClaim {
    pub key: String,
    pub window_seconds: i64,
    pub limit: i32,
    /// Escalating per-attempt cooldowns (empty: none).
    pub backoff_seconds: Vec<i64>,
}

/// Why the store refused a claim.
#[derive(Debug, Clone, PartialEq, Eq)]
pub enum QuotaDenial {
    /// A cooldown is still running.
    Cooldown { retry_after_seconds: i64 },
    /// The bucket's limit is reached for its window.
    LimitReached { retry_after_seconds: i64 },
    /// The counter could not answer.
    Unavailable { detail: String },
}

/// The shared counter store (the infrastructure implements it over its database).
pub trait QuotaStore: Sized {
    /// Whether `r` is an answer the store may give to claiming `claim` at `now_unix` when it stood
    /// as `before`, leaving it as `after`. Nothing is promised by default; an implementation that
    /// promises more says so here.
    open spec fn claim_answer(before: Self, after: Self, claim: QuotaClaim, now_unix: i64, r: Result<(), QuotaDenial>) -> bool {
        true
    }

    /// Claim one send against `claim`'s bucket at `now_unix`, or say why not.
    fn try_claim(&mut self, claim: &QuotaClaim, now_unix: i64) -> (r: Result<(), QuotaDenial>)
        ensures
            Self::claim_answer(*old(self), *final(self), *claim, now_unix, r);
}

} // verus!
