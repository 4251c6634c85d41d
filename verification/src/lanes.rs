//! The lane sink: where a routed `deliver:` or `send:` step of a process manager puts its intent.
//! Staging is inert — nothing becomes true until the delivery glue drains the buffer into its own
//! transaction — and a drain hands every staged enqueue over once, in order.

use vstd::prelude::*;

verus! {

/// Which door a staged enqueue goes through.
#[derive(Debug, Clone, Copy, PartialEq, Eq)]
pub enum LaneMessageKind {
    /// A `deliver:` — a fact the target records idempotently.
    Event,
    /// A `send:` — a request the target may reject on its own invariants.
    Command,
}

impl LaneMessageKind {
    /// The `inbound_messages.kind` token.
    pub fn as_str(self) -> (s: &'static str)
        ensures
            s@ == (match self { LaneMessageKind::Event => "EVENT"@, LaneMessageKind::Command => "COMMAND"@ }),
    {
        match self {
            LaneMessageKind::Event => "EVENT",
            LaneMessageKind::Command => "COMMAND",
        }
    }
}

/// One staged lane enqueue: business payload plus addressing. `payload` is the JSON text the target
/// route deserializes; `(source, external_id)` is the frozen dedup axis of the route.
#[derive(Debug, Clone, PartialEq, Eq)]
pub struct LaneEnqueue {
    pub kind: LaneMessageKind,
    pub actor_type: String,
    pub actor_id: u128,
    pub message_type: String,
    pub payload: String,
    pub source: String,
    pub external_id: String,
}

/// Where a routed step puts its intent. Infallible on purpose: staging is inert, and a duplicate is
/// a success.
pub trait LaneSink {
    /// Buffer one enqueue for the delivery glue.
    fn stage(&mut self, enqueue: LaneEnqueue);
}

/// The in-memory collector one delivery hands the saga.
#[derive(Debug)]
pub struct StagingLaneSink {
    staged: Vec<LaneEnqueue>,
}

impl View for StagingLaneSink {
    type V = Seq<LaneEnqueue>;

    closed spec fn view(&self) -> Seq<LaneEnqueue> {
        self.staged@
    }
}

impl StagingLaneSink {
    /// An empty sink.
    pub fn new() -> (s: Self)
        ensures
            s@ == Seq::<LaneEnqueue>::empty(),
    {
        StagingLaneSink { staged: Vec::new() }
    }

    /// Drains the buffer for the in-transaction flush: everything staged, in order, leaving it empty.
    pub fn take_staged(&mut self) -> (drained: Vec<LaneEnqueue>)
        ensures
            drained@ == old(self)@,
            final(self)@ == Seq::<LaneEnqueue>::empty(),
    {
        let mut drained: Vec<LaneEnqueue> = Vec::new();
        std::mem::swap(&mut drained, &mut self.staged);
        drained
    }
}

impl LaneSink for StagingLaneSink {
    fn stage(&mut self, enqueue: LaneEnqueue)
        ensures
            final(self)@ == old(self)@.push(enqueue),
    {
        self.staged.push(enqueue);
    }
}

/// The buffer after staging `enqueues` in order onto `start`.
pub open spec fn staged_after(start: Seq<LaneEnqueue>, enqueues: Seq<LaneEnqueue>) -> Seq<LaneEnqueue> {
    start + enqueues
}

/// Staging is ordered and a drain empties the buffer, so draining an emptied sink yields nothing:
/// whatever a re-run stages is handed over once, in the order it was staged.
pub proof fn law_staged_enqueues_drain_once_in_order(enqueues: Seq<LaneEnqueue>)
    ensures
        staged_after(Seq::empty(), enqueues) == enqueues,
        staged_after(Seq::empty(), Seq::empty()) == Seq::<LaneEnqueue>::empty(),
{
    assert(Seq::<LaneEnqueue>::empty() + enqueues =~= enqueues);
    assert(Seq::<LaneEnqueue>::empty() + Seq::<LaneEnqueue>::empty() =~= Seq::<LaneEnqueue>::empty());
}

} // verus!
