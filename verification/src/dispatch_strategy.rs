//! How a restaurant's deliveries are dispatched: by the restaurant itself (nothing is offered), or
//! by the platform, walking the ranked delivery channels of the restaurant's city from rank 1.

use vstd::prelude::*;
use crate::errors::DomainError;

verus! {

/// Who dispatches a restaurant's deliveries.
#[derive(Debug, Clone, Copy, PartialEq, Eq, Structural)]
pub enum RestaurantDispatchMode {
    Restaurant,
    Captain,
}

/// One delivery channel at its rank (1 = offered first), with an optional offer time-to-live.
#[derive(Debug, Clone, PartialEq, Eq)]
pub struct RankedChannel {
    pub rank: i32,
    pub channel: String,
    pub ttl_override_seconds: Option<i32>,
}

/// A restaurant's dispatch mode and city.
#[derive(Debug, Clone, PartialEq, Eq)]
pub struct RestaurantDispatch {
    pub mode: RestaurantDispatchMode,
    pub city_id: Option<u128>,
}

/// The dispatch-strategy read port.
pub trait DispatchStrategyRepository {
    /// Whether `r` is an answer the configuration may give for the restaurant's mode and city.
    /// Nothing is promised by default; an implementation that promises more says so here.
    open spec fn dispatch_answer(&self, restaurant_id: u128, r: Result<RestaurantDispatch, DomainError>) -> bool {
        true
    }

    /// Whether `r` is an answer the configuration may give for the city's ranked channels.
    /// Nothing is promised by default; an implementation that promises more says so here.
    open spec fn channels_answer(&self, city_id: Option<u128>, r: Result<Vec<RankedChannel>, DomainError>) -> bool {
        true
    }

    /// The restaurant's dispatch mode and city.
    fn restaurant_dispatch(&self, restaurant_id: u128) -> (r: Result<RestaurantDispatch, DomainError>)
        ensures
            self.dispatch_answer(restaurant_id, r);

    /// The city's ranked delivery channels.
    fn ranked_channels(&self, city_id: Option<u128>) -> (r: Result<Vec<RankedChannel>, DomainError>)
        ensures
            self.channels_answer(city_id, r);

    /// A channel's default offer time-to-live.
    fn channel_default_ttl_seconds(&self, channel: &String) -> Result<Option<i32>, DomainError>;
}

/// A restaurant's resolved dispatch plan: its mode and, for platform dispatch, its ranked channels.
#[derive(Debug, Clone, PartialEq, Eq)]
pub struct DispatchPlan {
    pub mode: RestaurantDispatchMode,
    pub ranked: Vec<RankedChannel>,
}

/// The position of the first channel at `rank`, if any.
pub open spec fn first_at_rank(ranked: Seq<RankedChannel>, rank: i32) -> Option<int> {
    if exists|i: int| 0 <= i < ranked.len() && (#[trigger] ranked[i]).rank == rank {
        Some(choose|i: int| 0 <= i < ranked.len() && (#[trigger] ranked[i]).rank == rank
            && forall|j: int| 0 <= j < i ==> (#[trigger] ranked[j]).rank != rank)
    } else {
        None
    }
}

/// The channel offered at `rank` under a plan.
pub open spec fn channel_at_spec(plan: DispatchPlan, rank: i32) -> Option<String> {
    match first_at_rank(plan.ranked@, rank) {
        Some(i) => Some(plan.ranked@[i].channel),
        None => None,
    }
}

/// The position of the first channel at `rank`.
fn position_at_rank(ranked: &Vec<RankedChannel>, rank: i32) -> (r: Option<usize>)
    ensures
        match r {
            Some(i) => first_at_rank(ranked@, rank) == Some(i as int) && i < ranked@.len(),
            None => first_at_rank(ranked@, rank) is None,
        },
{
    let mut i: usize = 0;
    while i < ranked.len()
        invariant
            i <= ranked@.len(),
            forall|j: int| 0 <= j < i ==> (#[trigger] ranked@[j]).rank != rank,
        decreases ranked.len() - i,
    {
        if ranked[i].rank == rank {
            proof {
                let k = choose|k: int| 0 <= k < ranked@.len() && (#[trigger] ranked@[k]).rank == rank
                    && forall|j: int| 0 <= j < k ==> (#[trigger] ranked@[j]).rank != rank;
                assert(ranked@[i as int].rank == rank);
                if k < i {
                    assert(ranked@[k].rank != rank);
                }
                if i < k {
                    assert(ranked@[i as int].rank != rank);
                }
            }
            return Some(i);
        }
        i += 1;
    }
    None
}

impl DispatchPlan {
    /// The restaurant dispatches its own deliveries.
    pub fn is_self_dispatched(&self) -> (b: bool)
        ensures
            b == (self.mode == RestaurantDispatchMode::Restaurant),
    {
        self.mode == RestaurantDispatchMode::Restaurant
    }

    /// The channel at `rank` (the first one listed there), if any.
    pub fn channel_at(&self, rank: i32) -> (r: Option<String>)
        ensures
            r == channel_at_spec(*self, rank),
    {
        match position_at_rank(&self.ranked, rank) {
            Some(i) => Some(self.ranked[i].channel.clone()),
            None => None,
        }
    }

    /// The ranked entry at `rank` (the first one listed there), if any.
    pub fn entry_at(&self, rank: i32) -> (r: Option<&RankedChannel>)
        ensures
            match first_at_rank(self.ranked@, rank) {
                Some(i) => r == Some(&self.ranked@[i]),
                None => r is None,
            },
    {
        match position_at_rank(&self.ranked, rank) {
            Some(i) => Some(&self.ranked[i]),
            None => None,
        }
    }
}

/// `r` is a plan `resolve_plan` may answer for the restaurant on `repo`: the restaurant's mode, and —
/// only for platform dispatch — its city's ranked channels, or the failure of either read.
pub open spec fn plan_answer<R: DispatchStrategyRepository>(repo: &R, restaurant_id: u128,
    r: Result<DispatchPlan, DomainError>) -> bool
{
    exists|d: Result<RestaurantDispatch, DomainError>| repo.dispatch_answer(restaurant_id, d) && match d {
        Err(e) => r == Err::<DispatchPlan, DomainError>(e),
        Ok(rd) => if rd.mode == RestaurantDispatchMode::Restaurant {
            r matches Ok(p) && p.mode == rd.mode && p.ranked@.len() == 0
        } else {
            exists|c: Result<Vec<RankedChannel>, DomainError>| repo.channels_answer(rd.city_id, c) && match c {
                Err(e) => r == Err::<DispatchPlan, DomainError>(e),
                Ok(v) => r matches Ok(p) && p.mode == rd.mode && p.ranked@ == v@,
            }
        },
    }
}

/// Resolves a restaurant's plan (see `plan_answer`): a self-dispatching restaurant's channels are
/// never read.
pub fn resolve_plan<R: DispatchStrategyRepository>(repo: &R, restaurant_id: u128) -> (r: Result<DispatchPlan, DomainError>)
    ensures
        plan_answer(repo, restaurant_id, r),
{
    let answered = repo.restaurant_dispatch(restaurant_id);
    let dispatch = match answered {
        Err(e) => {
            return Err(e);
        }
        Ok(d) => d,
    };
    if dispatch.mode == RestaurantDispatchMode::Restaurant {
        return Ok(DispatchPlan { mode: dispatch.mode, ranked: Vec::new() });
    }
    let channels = repo.ranked_channels(dispatch.city_id);
    match channels {
        Err(e) => Err(e),
        Ok(ranked) => Ok(DispatchPlan { mode: dispatch.mode, ranked }),
    }
}

} // verus!
