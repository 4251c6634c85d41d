//! The inbound mailbox: every accepted message is journaled once under its message id before it
//! is handled. A second insert of the same id is a duplicate (its first status and payload hash are
//! answered back); a scheduled message can be rescheduled in place while it is still scheduled, and
//! cancelled only then.

use vstd::prelude::*;
use crate::errors::{has_text, reject1, reject2, ContextValue, DomainError};
use crate::outside::now_unix_millis;
use crate::pm_state::{copy_text, MemRows, RunRow};

verus! {

/// Where an inbound message stands.
#[derive(Debug, Clone, Copy, PartialEq, Eq, Structural)]
pub enum InboundMessageStatus {
    Received,
    Scheduled,
    Succeeded,
    Failed,
    Cancelled,
}

/// One journaled message: its identity, its routing, its payload (JSON text) and payload hash, and
/// the envelope it arrived with.
#[derive(Debug, Clone, PartialEq, Eq)]
pub struct MailboxEntry {
    pub message_id: u128,
    pub kind: String,
    pub actor_type: String,
    pub actor_id: u128,
    pub partition: i16,
    pub message_type: String,
    pub payload: String,
    pub payload_hash: String,
    pub channel: String,
    pub user_id: Option<u128>,
    pub user_type: String,
    pub correlation_id: u128,
    pub cause_id: Option<u128>,
    pub session_id: Option<u128>,
    pub trace_id: Option<String>,
    pub source: Option<String>,
    pub external_id: Option<String>,
}

impl MailboxEntry {
    /// A field-for-field copy.
    pub fn duplicate(&self) -> (r: Self)
        ensures
            r == *self,
    {
        MailboxEntry {
            message_id: self.message_id,
            kind: self.kind.clone(),
            actor_type: self.actor_type.clone(),
            actor_id: self.actor_id,
            partition: self.partition,
            message_type: self.message_type.clone(),
            payload: self.payload.clone(),
            payload_hash: self.payload_hash.clone(),
            channel: self.channel.clone(),
            user_id: self.user_id,
            user_type: self.user_type.clone(),
            correlation_id: self.correlation_id,
            cause_id: self.cause_id,
            session_id: self.session_id,
            trace_id: copy_text(&self.trace_id),
            source: copy_text(&self.source),
            external_id: copy_text(&self.external_id),
        }
    }
}

/// How an insert ended.
#[derive(Debug, Clone, PartialEq, Eq)]
pub enum MailboxInsertOutcome {
    Inserted,
    Duplicate { status: InboundMessageStatus, payload_hash: String },
}

/// How a schedule ended.
#[derive(Debug, Clone, PartialEq, Eq)]
pub enum MailboxScheduleOutcome {
    Scheduled,
    Rescheduled,
    Duplicate { status: InboundMessageStatus, payload_hash: String },
}

/// A journaled message's status, as read back.
#[derive(Debug, Clone, PartialEq, Eq)]
pub struct MailboxStatusRow {
    pub message_id: u128,
    pub correlation_id: u128,
    pub status: InboundMessageStatus,
    pub error: Option<String>,
    pub payload_hash: String,
    pub user_id: Option<u128>,
    pub session_id: Option<u128>,
    /// Unix milliseconds.
    pub received_at: i64,
    pub completed_at: Option<i64>,
}

/// One stored message with its status, error and schedule (Unix milliseconds).
#[derive(Debug, Clone, PartialEq, Eq)]
pub struct MailRow {
    pub entry: MailboxEntry,
    pub status: InboundMessageStatus,
    pub error: Option<String>,
    pub scheduled_at: Option<i64>,
}

impl RunRow for MailRow {
    open spec fn key_of(self) -> u128 {
        self.entry.message_id
    }

    /// A mailbox row carries no update stamp: stamping leaves it as it is.
    open spec fn stamped_at(self, t: i64) -> Self {
        self
    }

    fn key(&self) -> (k: u128) {
        self.entry.message_id
    }

    fn with_stamp(&self, t: i64) -> (r: Self) {
        self.copy_row()
    }

    fn copy_row(&self) -> (r: Self) {
        MailRow {
            entry: self.entry.duplicate(),
            status: self.status,
            error: copy_text(&self.error),
            scheduled_at: self.scheduled_at,
        }
    }

    proof fn lemma_stamp_keeps_key(self, t: i64) {
    }
}

/// The mailbox port.
pub trait Mailbox: Sized {
    /// Whether `r` is an answer the mailbox may give to inserting `entry` when it stood as `before`,
    /// leaving it as `after`. Nothing is promised by default; an implementation that promises more
    /// says so here.
    open spec fn insert_answer(before: Self, after: Self, entry: MailboxEntry, r: Result<MailboxInsertOutcome, DomainError>) -> bool {
        true
    }

    /// Journals a message once: a second insert of its id is a duplicate.
    fn insert(&mut self, entry: &MailboxEntry) -> (r: Result<MailboxInsertOutcome, DomainError>)
        ensures
            Self::insert_answer(*old(self), *final(self), *entry, r);

    /// The status of a journaled message.
    fn by_message(&self, message_id: u128) -> Result<Option<MailboxStatusRow>, DomainError>;

    /// Journals a message to be delivered at `scheduled_at`, or moves a still-scheduled one.
    fn schedule(&mut self, entry: &MailboxEntry, scheduled_at: i64) -> Result<MailboxScheduleOutcome, DomainError>;

    /// Cancels a still-scheduled message; answers whether it was.
    fn cancel_scheduled(&mut self, message_id: u128) -> Result<bool, DomainError>;
}

/// The ids of the entries whose insert answered `Inserted`, in order, for the answers given so far.
pub open spec fn inserted_ids(entries: Seq<MailboxEntry>, outcomes: Seq<MailboxInsertOutcome>) -> Seq<u128>
    decreases outcomes.len(),
{
    if outcomes.len() == 0 {
        Seq::empty()
    } else {
        inserted_ids(entries, outcomes.drop_last()) + if outcomes.last() is Inserted {
            seq![entries[outcomes.len() - 1].message_id]
        } else {
            Seq::empty()
        }
    }
}

/// The inserts answered `Ok` with `outcomes`, one per entry in order, the mailbox going through
/// `states`.
pub open spec fn inserts_answered<M: Mailbox>(states: Seq<M>, entries: Seq<MailboxEntry>, outcomes: Seq<MailboxInsertOutcome>) -> bool {
    forall|i: int| 0 <= i < outcomes.len()
        ==> #[trigger] M::insert_answer(states[i], states[i + 1], entries[i], Ok(outcomes[i]))
}

/// The mailbox went through `states` (from `start` to `end`) as the entries were inserted in order:
/// every insert answered, and the answer is the ids newly inserted; or the inserts answered up to a
/// failure, which is the answer and after which nothing more was inserted.
pub open spec fn insert_many_trace<M: Mailbox>(start: M, end: M, entries: Seq<MailboxEntry>, r: Result<Vec<u128>, DomainError>,
    states: Seq<M>, outcomes: Seq<MailboxInsertOutcome>) -> bool
{
    &&& states.len() >= 1
    &&& states[0] == start
    &&& states.last() == end
    &&& outcomes.len() <= entries.len()
    &&& inserts_answered(states, entries, outcomes)
    &&& match r {
        Ok(ids) => outcomes.len() == entries.len() && states.len() == entries.len() + 1
            && ids@ == inserted_ids(entries, outcomes),
        Err(e) => outcomes.len() < entries.len() && states.len() == outcomes.len() + 2
            && M::insert_answer(states[outcomes.len() as int], states[(outcomes.len() + 1) as int], entries[outcomes.len() as int], Err(e)),
    }
}

/// Journals each message in turn; answers the ids that were newly inserted, in order, and stops at
/// the first insert that fails, answering its error.
pub fn insert_many<M: Mailbox>(mailbox: &mut M, entries: &Vec<MailboxEntry>) -> (r: Result<Vec<u128>, DomainError>)
    ensures
        exists|states: Seq<M>, outcomes: Seq<MailboxInsertOutcome>|
            #[trigger] insert_many_trace(*old(mailbox), *final(mailbox), entries@, r, states, outcomes),
{
    let ghost start = *mailbox;
    let ghost mut states: Seq<M> = seq![*mailbox];
    let ghost mut outcomes: Seq<MailboxInsertOutcome> = Seq::empty();
    let mut inserted: Vec<u128> = Vec::new();
    let mut i: usize = 0;
    while i < entries.len()
        invariant
            start == *old(mailbox),
            i <= entries@.len(),
            outcomes.len() == i,
            states.len() == i + 1,
            states[0] == start,
            states.last() == *mailbox,
            inserts_answered(states, entries@, outcomes),
            inserted@ == inserted_ids(entries@, outcomes),
        decreases entries.len() - i,
    {
        let ghost before = states;
        let ghost before_outcomes = outcomes;
        let ghost pre = *mailbox;
        let answered = mailbox.insert(&entries[i]);
        assert(M::insert_answer(pre, *mailbox, entries@[i as int], answered));
        match answered {
            Err(e) => {
                proof {
                    states = states.push(*mailbox);
                    assert forall|j: int| 0 <= j < outcomes.len() implies #[trigger] M::insert_answer(states[j], states[j + 1],
                        entries@[j], Ok(outcomes[j])) by {
                        assert(states[j] == before[j]);
                        assert(states[j + 1] == before[j + 1]);
                        assert(M::insert_answer(before[j], before[j + 1], entries@[j], Ok(outcomes[j])));
                    }
                    assert(states[i as int] == pre);
                    assert(states[i + 1] == *mailbox);
                    assert(insert_many_trace(start, *mailbox, entries@, Err::<Vec<u128>, DomainError>(e), states, outcomes));
                }
                return Err(e);
            }
            Ok(outcome) => {
                proof {
                    states = states.push(*mailbox);
                    outcomes = outcomes.push(outcome);
                    assert(outcomes.drop_last() =~= before_outcomes);
                    assert forall|j: int| 0 <= j < outcomes.len() implies #[trigger] M::insert_answer(states[j], states[j + 1],
                        entries@[j], Ok(outcomes[j])) by {
                        if j < i {
                            assert(states[j] == before[j]);
                            assert(states[j + 1] == before[j + 1]);
                            assert(outcomes[j] == before_outcomes[j]);
                            assert(M::insert_answer(before[j], before[j + 1], entries@[j], Ok(before_outcomes[j])));
                        } else {
                            assert(states[j] == pre);
                            assert(states[j + 1] == *mailbox);
                        }
                    }
                }
                match outcome {
                    MailboxInsertOutcome::Inserted => {
                        inserted.push(entries[i].message_id);
                    }
                    _ => {}
                }
                assert(inserted@ =~= inserted_ids(entries@, outcomes));
            }
        }
        i += 1;
    }
    assert(insert_many_trace(start, *mailbox, entries@, Ok::<Vec<u128>, DomainError>(inserted), states, outcomes));
    Ok(inserted)
}

/// The mailbox in memory, one row per message id. `auto_succeed` marks inserted messages as
/// already delivered.
pub struct MemMailbox {
    rows: MemRows<MailRow>,
    auto_succeed: bool,
}

impl View for MemMailbox {
    type V = Map<u128, MailRow>;

    closed spec fn view(&self) -> Map<u128, MailRow> {
        self.rows@
    }
}

impl MemMailbox {
    /// Inserted messages count as delivered at once.
    pub closed spec fn delivers_instantly(&self) -> bool {
        self.auto_succeed
    }

    /// An empty mailbox.
    pub fn new() -> (m: Self)
        ensures
            m@ == Map::<u128, MailRow>::empty(),
            !m.delivers_instantly(),
    {
        MemMailbox { rows: MemRows::new(), auto_succeed: false }
    }

    /// An empty mailbox whose inserted messages count as delivered at once.
    pub fn instantly_delivered() -> (m: Self)
        ensures
            m@ == Map::<u128, MailRow>::empty(),
            m.delivers_instantly(),
    {
        MemMailbox { rows: MemRows::new(), auto_succeed: true }
    }

    /// Every journaled entry, once each (in no promised order).
    pub fn entries(&self) -> (v: Vec<MailboxEntry>)
        ensures
            v@.len() == self@.dom().len(),
            forall|i: int| 0 <= i < v@.len() ==> self@.contains_key((#[trigger] v@[i]).message_id)
                && self@[v@[i].message_id].entry == v@[i],
            forall|k: u128| self@.contains_key(k) ==> exists|i: int| 0 <= i < v@.len() && (#[trigger] v@[i]).message_id == k,
    {
        let rows = self.rows.values();
        let mut v: Vec<MailboxEntry> = Vec::new();
        let mut i: usize = 0;
        while i < rows.len()
            invariant
                i <= rows@.len(),
                v@.len() == i,
                forall|j: int| 0 <= j < i ==> v@[j] == rows@[j].entry,
            decreases rows.len() - i,
        {
            v.push(rows[i].entry.duplicate());
            i += 1;
        }
        proof {
            assert forall|k: u128| self@.contains_key(k) implies exists|i: int| 0 <= i < v@.len() && (#[trigger] v@[i]).message_id == k by {
                let w = choose|w: int| 0 <= w < rows@.len() && (#[trigger] rows@[w]).key_of() == k;
                assert(v@[w].message_id == k);
            }
            lemma_unique_keys_count(rows@, self@);
        }
        v
    }

    /// The journaled entry of a message.
    pub fn entry(&self, message_id: u128) -> (r: Option<MailboxEntry>)
        ensures
            r == (if self@.contains_key(message_id) { Some(self@[message_id].entry) } else { None }),
    {
        match self.rows.get(message_id) {
            Some(row) => Some(row.entry),
            None => None,
        }
    }

    /// When a message is scheduled for, if it is.
    pub fn scheduled_at(&self, message_id: u128) -> (r: Option<i64>)
        ensures
            r == (if self@.contains_key(message_id) { self@[message_id].scheduled_at } else { None }),
    {
        match self.rows.get(message_id) {
            Some(row) => row.scheduled_at,
            None => None,
        }
    }
}

/// A sequence with one row per key holds exactly as many rows as the map has keys.
proof fn lemma_unique_keys_count(rows: Seq<MailRow>, m: Map<u128, MailRow>)
    requires
        crate::pm_state::keys_unique(rows),
        forall|i: int| 0 <= i < rows.len() ==> m.contains_key((#[trigger] rows[i]).key_of()),
        forall|k: u128| m.contains_key(k) ==> exists|i: int| 0 <= i < rows.len() && (#[trigger] rows[i]).key_of() == k,
    ensures
        rows.len() == m.dom().len(),
{
    let keys = rows.map_values(|r: MailRow| r.key_of());
    assert(keys.no_duplicates()) by {
        assert forall|i: int, j: int| 0 <= i < keys.len() && 0 <= j < keys.len() && i != j implies keys[i] != keys[j] by {
            if i < j {
                assert(rows[i].key_of() != rows[j].key_of());
            } else {
                assert(rows[j].key_of() != rows[i].key_of());
            }
        }
    }
    assert(keys.to_set() =~= m.dom()) by {
        assert forall|k: u128| keys.to_set().contains(k) implies m.dom().contains(k) by {
            let i = choose|i: int| 0 <= i < keys.len() && keys[i] == k;
            assert(keys[i] == rows[i].key_of());
        }
        assert forall|k: u128| m.dom().contains(k) implies keys.to_set().contains(k) by {
            let w = choose|w: int| 0 <= w < rows.len() && (#[trigger] rows[w]).key_of() == k;
            assert(keys[w] == k);
        }
    }
    keys.unique_seq_to_set();
}

/// What an insert does to the mailbox: a known id is a duplicate answering its first status and
/// payload hash, and nothing changes; a new id is journaled, received (or already succeeded under
/// `auto_succeed`), with no error and no schedule.
pub open spec fn insert_outcome(before: Map<u128, MailRow>, after: Map<u128, MailRow>, auto_succeed: bool,
    entry: MailboxEntry, r: MailboxInsertOutcome) -> bool
{
    if before.contains_key(entry.message_id) {
        &&& after == before
        &&& r == MailboxInsertOutcome::Duplicate {
                status: before[entry.message_id].status,
                payload_hash: before[entry.message_id].entry.payload_hash,
            }
    } else {
        &&& after == before.insert(entry.message_id, MailRow {
                entry,
                status: if auto_succeed { InboundMessageStatus::Succeeded } else { InboundMessageStatus::Received },
                error: None,
                scheduled_at: None,
            })
        &&& r == MailboxInsertOutcome::Inserted
    }
}

/// What a schedule does: a new id is journaled scheduled at `at`; a still-scheduled one is moved to
/// `at` with the new payload and hash (one pending occurrence per message); any other is a duplicate
/// and nothing changes.
pub open spec fn schedule_outcome(before: Map<u128, MailRow>, after: Map<u128, MailRow>, entry: MailboxEntry, at: i64,
    r: MailboxScheduleOutcome) -> bool
{
    if !before.contains_key(entry.message_id) {
        &&& after == before.insert(entry.message_id, MailRow {
                entry,
                status: InboundMessageStatus::Scheduled,
                error: None,
                scheduled_at: Some(at),
            })
        &&& r == MailboxScheduleOutcome::Scheduled
    } else if before[entry.message_id].status == InboundMessageStatus::Scheduled {
        let old_row = before[entry.message_id];
        &&& after == before.insert(entry.message_id, MailRow {
                entry: MailboxEntry { payload: entry.payload, payload_hash: entry.payload_hash, ..old_row.entry },
                scheduled_at: Some(at),
                ..old_row
            })
        &&& r == MailboxScheduleOutcome::Rescheduled
    } else {
        &&& after == before
        &&& r == MailboxScheduleOutcome::Duplicate {
                status: before[entry.message_id].status,
                payload_hash: before[entry.message_id].entry.payload_hash,
            }
    }
}

/// What a cancel does: a still-scheduled message becomes cancelled (`true`); anything else is left
/// alone (`false`).
pub open spec fn cancel_outcome(before: Map<u128, MailRow>, after: Map<u128, MailRow>, message_id: u128, r: bool) -> bool {
    if before.contains_key(message_id) && before[message_id].status == InboundMessageStatus::Scheduled {
        &&& after == before.insert(message_id, MailRow { status: InboundMessageStatus::Cancelled, ..before[message_id] })
        &&& r
    } else {
        &&& after == before
        &&& !r
    }
}

impl Mailbox for MemMailbox {
    /// The in-memory mailbox never fails an insert: it journals a new id (as delivered when it
    /// delivers instantly) or answers the duplicate's first status and hash.
    open spec fn insert_answer(before: Self, after: Self, entry: MailboxEntry, r: Result<MailboxInsertOutcome, DomainError>) -> bool {
        &&& after.delivers_instantly() == before.delivers_instantly()
        &&& r matches Ok(o) && insert_outcome(before@, after@, before.delivers_instantly(), entry, o)
    }

    fn insert(&mut self, entry: &MailboxEntry) -> (r: Result<MailboxInsertOutcome, DomainError>)
        ensures
            final(self).delivers_instantly() == old(self).delivers_instantly(),
            r matches Ok(o) && insert_outcome(old(self)@, final(self)@, old(self).delivers_instantly(), *entry, o),
    {
        match self.rows.get(entry.message_id) {
            Some(existing) => Ok(MailboxInsertOutcome::Duplicate {
                status: existing.status,
                payload_hash: existing.entry.payload_hash,
            }),
            None => {
                let status = if self.auto_succeed { InboundMessageStatus::Succeeded } else { InboundMessageStatus::Received };
                let row = MailRow { entry: entry.duplicate(), status, error: None, scheduled_at: None };
                self.rows.put(&row, 0);
                Ok(MailboxInsertOutcome::Inserted)
            }
        }
    }

    fn by_message(&self, message_id: u128) -> (r: Result<Option<MailboxStatusRow>, DomainError>)
        ensures
            r matches Ok(o) && match o {
                None => !self@.contains_key(message_id),
                Some(s) => self@.contains_key(message_id) && {
                    let row = self@[message_id];
                    &&& s.message_id == row.entry.message_id
                    &&& s.correlation_id == row.entry.correlation_id
                    &&& s.status == row.status
                    &&& s.error == row.error
                    &&& s.payload_hash == row.entry.payload_hash
                    &&& s.user_id == row.entry.user_id
                    &&& s.session_id == row.entry.session_id
                    &&& s.completed_at is None
                },
            },
    {
        match self.rows.get(message_id) {
            None => Ok(None),
            Some(row) => Ok(Some(MailboxStatusRow {
                message_id: row.entry.message_id,
                correlation_id: row.entry.correlation_id,
                status: row.status,
                error: row.error,
                payload_hash: row.entry.payload_hash,
                user_id: row.entry.user_id,
                session_id: row.entry.session_id,
                received_at: now_unix_millis(),
                completed_at: None,
            })),
        }
    }

    fn schedule(&mut self, entry: &MailboxEntry, scheduled_at: i64) -> (r: Result<MailboxScheduleOutcome, DomainError>)
        ensures
            final(self).delivers_instantly() == old(self).delivers_instantly(),
            r matches Ok(o) && schedule_outcome(old(self)@, final(self)@, *entry, scheduled_at, o),
    {
        match self.rows.get(entry.message_id) {
            None => {
                let row = MailRow {
                    entry: entry.duplicate(),
                    status: InboundMessageStatus::Scheduled,
                    error: None,
                    scheduled_at: Some(scheduled_at),
                };
                self.rows.put(&row, 0);
                Ok(MailboxScheduleOutcome::Scheduled)
            }
            Some(row) => {
                if row.status == InboundMessageStatus::Scheduled {
                    let ghost old_row = row;
                    let moved = MailRow {
                        entry: MailboxEntry { payload: entry.payload.clone(), payload_hash: entry.payload_hash.clone(), ..row.entry },
                        scheduled_at: Some(scheduled_at),
                        ..row
                    };
                    assert(moved == (MailRow {
                        entry: MailboxEntry { payload: entry.payload, payload_hash: entry.payload_hash, ..old_row.entry },
                        scheduled_at: Some(scheduled_at),
                        ..old_row
                    }));
                    self.rows.put(&moved, 0);
                    Ok(MailboxScheduleOutcome::Rescheduled)
                } else {
                    Ok(MailboxScheduleOutcome::Duplicate { status: row.status, payload_hash: row.entry.payload_hash })
                }
            }
        }
    }

    fn cancel_scheduled(&mut self, message_id: u128) -> (r: Result<bool, DomainError>)
        ensures
            final(self).delivers_instantly() == old(self).delivers_instantly(),
            r matches Ok(b) && cancel_outcome(old(self)@, final(self)@, message_id, b),
    {
        match self.rows.get(message_id) {
            Some(row) => {
                if row.status == InboundMessageStatus::Scheduled {
                    let cancelled = MailRow { status: InboundMessageStatus::Cancelled, ..row };
                    self.rows.put(&cancelled, 0);
                    Ok(true)
                } else {
                    Ok(false)
                }
            }
            None => Ok(false),
        }
    }
}

/// A message is journaled at most once: after any insert of an id the mailbox already holds, the
/// mailbox is unchanged and the first status and payload hash are answered back.
pub proof fn law_insert_is_idempotent(before: Map<u128, MailRow>, after: Map<u128, MailRow>, auto_succeed: bool,
    entry: MailboxEntry, r: MailboxInsertOutcome)
    requires
        before.contains_key(entry.message_id),
        insert_outcome(before, after, auto_succeed, entry, r),
    ensures
        after == before,
        r matches MailboxInsertOutcome::Duplicate { status, payload_hash } && status == before[entry.message_id].status
            && payload_hash == before[entry.message_id].entry.payload_hash,
{
}

/// Rescheduling keeps one pending occurrence per message: scheduling an id twice leaves one row
/// under it, scheduled at the later instant with the later payload hash.
pub proof fn law_reschedule_keeps_one_occurrence(m0: Map<u128, MailRow>, m1: Map<u128, MailRow>, m2: Map<u128, MailRow>,
    first: MailboxEntry, second: MailboxEntry, t1: i64, t2: i64, r1: MailboxScheduleOutcome, r2: MailboxScheduleOutcome)
    requires
        !m0.contains_key(first.message_id),
        second.message_id == first.message_id,
        schedule_outcome(m0, m1, first, t1, r1),
        schedule_outcome(m1, m2, second, t2, r2),
    ensures
        r1 == MailboxScheduleOutcome::Scheduled,
        r2 == MailboxScheduleOutcome::Rescheduled,
        m2.dom() == m0.dom().insert(first.message_id),
        m2[first.message_id].scheduled_at == Some(t2),
        m2[first.message_id].entry.payload_hash == second.payload_hash,
{
    assert(m1[first.message_id].status == InboundMessageStatus::Scheduled);
    assert(m2.dom() =~= m0.dom().insert(first.message_id));
}

/// Only a scheduled message can be cancelled, and only once: a cancel of anything else, or a second
/// cancel, answers `false` and changes nothing.
pub proof fn law_cancel_is_scheduled_only(m0: Map<u128, MailRow>, m1: Map<u128, MailRow>, m2: Map<u128, MailRow>,
    message_id: u128, r1: bool, r2: bool)
    requires
        cancel_outcome(m0, m1, message_id, r1),
        cancel_outcome(m1, m2, message_id, r2),
    ensures
        !r2,
        m2 == m1,
        r1 ==> m1[message_id].status == InboundMessageStatus::Cancelled,
{
}

/// What the requeue port answered: it arbitrates and applies the flip of a poisoned row in one
/// statement.
#[derive(Debug, Clone, PartialEq, Eq)]
pub enum RequeueOutcome {
    /// The poisoned row was made deliverable again.
    Requeued { actor_type: String },
    /// The row was already deliverable (a retried requeue converges).
    AlreadyDeliverable { actor_type: String },
    NotFound,
    /// The row is not one the delivery-attempts cap poisoned.
    NotRequeueable { status: String },
}

/// An operator requeue: a requeued or already deliverable row answers the actor type the requeue
/// fact records; an unknown row is `MailboxMessageNotFound`; any other row is
/// `MailboxMessageNotRequeueable`, naming its status.
pub fn requeue_mailbox_message(target_message_id: u128, outcome: RequeueOutcome) -> (r: Result<String, DomainError>)
    ensures
        outcome matches RequeueOutcome::Requeued { actor_type } ==> r == Ok::<String, DomainError>(actor_type),
        outcome matches RequeueOutcome::AlreadyDeliverable { actor_type } ==> r == Ok::<String, DomainError>(actor_type),
        outcome is NotFound ==> r is Err && r->Err_0.rejected_code() == Some("MailboxMessageNotFound"@)
            && r->Err_0.context_value("targetMessageId"@) == Some(ContextValue::Id(target_message_id)),
        outcome matches RequeueOutcome::NotRequeueable { status } ==> r is Err
            && r->Err_0.rejected_code() == Some("MailboxMessageNotRequeueable"@)
            && r->Err_0.context_value("targetMessageId"@) == Some(ContextValue::Id(target_message_id))
            && has_text(r->Err_0, "status"@, status@),
{
    match outcome {
        RequeueOutcome::Requeued { actor_type } => Ok(actor_type),
        RequeueOutcome::AlreadyDeliverable { actor_type } => Ok(actor_type),
        RequeueOutcome::NotFound => Err(reject1("MailboxMessageNotFound", "targetMessageId", ContextValue::Id(target_message_id))),
        RequeueOutcome::NotRequeueable { status } => {
            proof {
                reveal_strlit("targetMessageId");
                reveal_strlit("status");
                assert("targetMessageId"@.len() != "status"@.len());
            }
            Err(reject2("MailboxMessageNotRequeueable", "targetMessageId", ContextValue::Id(target_message_id), "status",
                ContextValue::Text(status)))
        }
    }
}

} // verus!
