//! Journaled dispatch of a command: the journal row under the message id decides whether the
//! handler runs. A first delivery runs it; a re-delivery of the same payload is deduplicated unless
//! the first run failed (then it is retried under the same id); a different payload under a known id
//! is a payload conflict and never runs. The handler's result completes the row: succeeded, rejected
//! with its catalogued code, or failed as an internal error.

use vstd::prelude::*;
use crate::errors::{invariant_code, ContextField, ContextValue, DomainError};

verus! {

/// Where a journaled command stands.
#[derive(Debug, Clone, Copy, PartialEq, Eq, Structural)]
pub enum CommandJournalStatus {
    Received,
    Succeeded,
    Rejected,
    Failed,
}

/// How journaling a command ended.
#[derive(Debug, Clone, PartialEq, Eq)]
pub enum JournalInsertOutcome {
    Inserted,
    Duplicate { status: CommandJournalStatus, payload_hash: String },
}

/// How a journaled dispatch ended.
#[derive(Debug, PartialEq, Eq)]
pub enum JournaledOutcome {
    /// The handler ran, with this result.
    Executed(Result<(), DomainError>),
    /// A re-delivery of a command that already completed: the handler did not run.
    Deduplicated(CommandJournalStatus),
    /// Another payload under a known message id: the handler did not run.
    PayloadConflict { existing_status: CommandJournalStatus },
}

/// The error a completed row records: the catalogued code and its context.
#[derive(Debug, Clone, PartialEq, Eq)]
pub struct JournalError {
    pub code: String,
    pub context: Vec<ContextField>,
}

/// Whether the handler runs for a journal answer (`None`), or what the dispatch answers without
/// running it.
pub open spec fn dedup_verdict_spec(insert: JournalInsertOutcome, payload_hash: Seq<char>) -> Option<JournaledOutcome> {
    match insert {
        JournalInsertOutcome::Inserted => None,
        JournalInsertOutcome::Duplicate { status, payload_hash: existing } => if existing@ != payload_hash {
            Some(JournaledOutcome::PayloadConflict { existing_status: status })
        } else if status != CommandJournalStatus::Failed {
            Some(JournaledOutcome::Deduplicated(status))
        } else {
            None
        },
    }
}

/// The dedup verdict of a journaled dispatch (see `dedup_verdict_spec`).
pub fn dedup_verdict(insert: JournalInsertOutcome, payload_hash: &String) -> (r: Option<JournaledOutcome>)
    ensures
        r == dedup_verdict_spec(insert, payload_hash@),
{
    match insert {
        JournalInsertOutcome::Inserted => None,
        JournalInsertOutcome::Duplicate { status, payload_hash: existing } => {
            if existing != *payload_hash {
                Some(JournaledOutcome::PayloadConflict { existing_status: status })
            } else if status != CommandJournalStatus::Failed {
                Some(JournaledOutcome::Deduplicated(status))
            } else {
                None
            }
        }
    }
}

/// The completion a handler's result records. `catalogued` answers whether the code of a legacy
/// invariant message is a catalogued error; `internal_code` is the catalogue's code for an internal
/// failure.
pub open spec fn completion_status(outcome: Result<(), DomainError>, catalogued: bool) -> CommandJournalStatus {
    match outcome {
        Ok(()) => CommandJournalStatus::Succeeded,
        Err(DomainError::Rejected { .. }) => CommandJournalStatus::Rejected,
        Err(DomainError::Invariant(_)) => if catalogued { CommandJournalStatus::Rejected } else { CommandJournalStatus::Failed },
        Err(DomainError::Repository(_)) => CommandJournalStatus::Failed,
    }
}

/// The code a completion records, if any.
pub open spec fn completion_code(outcome: Result<(), DomainError>, catalogued: bool, internal_code: Seq<char>) -> Option<Seq<char>> {
    match outcome {
        Ok(()) => None,
        Err(DomainError::Rejected { code, .. }) => Some(code@),
        Err(DomainError::Invariant(msg)) => if catalogued { Some(invariant_code(msg@)) } else { Some(internal_code) },
        Err(DomainError::Repository(_)) => Some(internal_code),
    }
}

/// The status and error that complete a journaled command: succeeded with no error; a rejection
/// with its code and context; a legacy invariant whose code is catalogued, rejected with that code
/// and the message as detail; anything else failed as an internal error with an empty context.
pub fn completion_of(outcome: &Result<(), DomainError>, catalogued: bool, internal_code: &str)
    -> (r: (CommandJournalStatus, Option<JournalError>))
    ensures
        r.0 == completion_status(*outcome, catalogued),
        match completion_code(*outcome, catalogued, internal_code@) {
            None => r.1 is None,
            Some(c) => r.1 matches Some(e) && e.code@ == c,
        },
        (*outcome is Err && outcome->Err_0 is Rejected) ==> r.1->0.context@ == outcome->Err_0->context@,
{
    match outcome {
        Ok(()) => (CommandJournalStatus::Succeeded, None),
        Err(DomainError::Rejected { code, context }) => {
            let mut ctx: Vec<ContextField> = Vec::new();
            let mut i: usize = 0;
            while i < context.len()
                invariant
                    i <= context@.len(),
                    ctx@ == context@.take(i as int),
                decreases context.len() - i,
            {
                ctx.push(ContextField { key: context[i].key.clone(), value: copy_value(&context[i].value) });
                i += 1;
                assert(ctx@ =~= context@.take(i as int));
            }
            assert(context@.take(context@.len() as int) =~= context@);
            (CommandJournalStatus::Rejected, Some(JournalError { code: code.clone(), context: ctx }))
        }
        Err(DomainError::Invariant(msg)) => {
            if catalogued {
                let code = match crate::errors::rejection_code(&DomainError::Invariant(msg.clone())) {
                    Some(c) => c,
                    None => String::new(),
                };
                let mut ctx: Vec<ContextField> = Vec::new();
                ctx.push(crate::errors::field("detail", ContextValue::Text(msg.clone())));
                (CommandJournalStatus::Rejected, Some(JournalError { code, context: ctx }))
            } else {
                (CommandJournalStatus::Failed, Some(JournalError { code: String::from_str(internal_code), context: Vec::new() }))
            }
        }
        Err(DomainError::Repository(_)) => {
            (CommandJournalStatus::Failed, Some(JournalError { code: String::from_str(internal_code), context: Vec::new() }))
        }
    }
}

/// A copy of a context value.
pub fn copy_value(v: &ContextValue) -> (r: ContextValue)
    ensures
        r == *v,
{
    match v {
        ContextValue::Id(i) => ContextValue::Id(*i),
        ContextValue::Int(n) => ContextValue::Int(*n),
        ContextValue::Text(t) => ContextValue::Text(t.clone()),
        ContextValue::Absent => ContextValue::Absent,
    }
}

/// Whether a handler's outcome is a legacy invariant whose code is in the errors catalogue.
pub open spec fn catalogued_invariant(outcome: Result<(), DomainError>, catalogue: Seq<String>) -> bool {
    match outcome {
        Err(DomainError::Invariant(msg)) => exists|i: int| 0 <= i < catalogue.len()
            && (#[trigger] catalogue[i])@ == crate::errors::invariant_code(msg@),
        _ => false,
    }
}

/// Whether `code` is in the errors catalogue.
fn in_catalogue(catalogue: &Vec<String>, code: &String) -> (b: bool)
    ensures
        b == exists|i: int| 0 <= i < catalogue@.len() && (#[trigger] catalogue@[i])@ == code@,
{
    let mut i: usize = 0;
    while i < catalogue.len()
        invariant
            i <= catalogue@.len(),
            forall|j: int| 0 <= j < i ==> (#[trigger] catalogue@[j])@ != code@,
        decreases catalogue.len() - i,
    {
        if catalogue[i] == *code {
            return true;
        }
        i += 1;
    }
    false
}

/// What a journaled dispatch answers and what it completes the journal row with (`None`: the row
/// is left as it is).
pub open spec fn journaled_dispatch_outcome(insert: JournalInsertOutcome, payload_hash: Seq<char>,
    outcome: Result<(), DomainError>, catalogue: Seq<String>, internal_code: Seq<char>,
    r: (JournaledOutcome, Option<(CommandJournalStatus, Option<JournalError>)>)) -> bool
{
    &&& r.0 == JournaledOutcome::Executed(outcome)
    &&& r.1 matches Some(c) && c.0 == completion_status(outcome, catalogued_invariant(outcome, catalogue))
        && match completion_code(outcome, catalogued_invariant(outcome, catalogue), internal_code) {
            None => c.1 is None,
            Some(code) => c.1 matches Some(e) && e.code@ == code,
        }
}

/// What a journaled dispatch answers for a journal answer, whatever the handler answered: without
/// running the handler when the verdict says so, else the handler's result and the completion.
pub open spec fn journaled_dispatch(insert: JournalInsertOutcome, payload_hash: Seq<char>, catalogue: Seq<String>,
    internal_code: Seq<char>, r: (JournaledOutcome, Option<(CommandJournalStatus, Option<JournalError>)>)) -> bool
{
    match dedup_verdict_spec(insert, payload_hash) {
        Some(v) => r.0 == v && r.1 is None,
        None => exists|o: Result<(), DomainError>|
            #[trigger] journaled_dispatch_outcome(insert, payload_hash, o, catalogue, internal_code, r),
    }
}

/// A command dispatched through the journal, given what journaling its message answered. A payload
/// conflict or a re-delivery of a command that did not fail answers without running `handler` and
/// leaves the row as it is; a first delivery, or a replay of a failed run, runs `handler` once and
/// completes the same row from its result (see `completion_of`); the result is handed back.
/// `catalogue` holds the codes of the errors catalogue; `internal_code` is its internal failure's.
pub fn dispatch_journaled<F: FnOnce() -> Result<(), DomainError>>(insert: JournalInsertOutcome, payload_hash: &String,
    handler: F, catalogue: &Vec<String>, internal_code: &str)
    -> (r: (JournaledOutcome, Option<(CommandJournalStatus, Option<JournalError>)>))
    requires
        handler.requires(()),
    ensures
        journaled_dispatch(insert, payload_hash@, catalogue@, internal_code@, r),
        r.0 matches JournaledOutcome::Executed(o) ==> handler.ensures((), o),
{
    match dedup_verdict(insert, payload_hash) {
        Some(v) => (v, None),
        None => {
            let outcome = handler();
            let catalogued = match &outcome {
                Err(DomainError::Invariant(msg)) => {
                    let code = crate::errors::rejection_code(&DomainError::Invariant(msg.clone()));
                    match code {
                        Some(c) => in_catalogue(catalogue, &c),
                        None => false,
                    }
                }
                _ => false,
            };
            let completion = completion_of(&outcome, catalogued, internal_code);
            let ghost o = outcome;
            let r = (JournaledOutcome::Executed(outcome), Some(completion));
            assert(journaled_dispatch_outcome(insert, payload_hash@, o, catalogue@, internal_code@, r));
            r
        }
    }
}

/// A journaled command reruns only after a failure: whatever the handler would answer, a re-delivery
/// of the same payload whose run did not fail completes nothing and answers the recorded status; a
/// replay of a failed run runs it and completes the same row from its result; a first delivery runs
/// it the same way.
pub proof fn law_journaled_command_reruns_only_after_failure(status: CommandJournalStatus, existing: String,
    payload_hash: Seq<char>, catalogue: Seq<String>, internal_code: Seq<char>,
    r: (JournaledOutcome, Option<(CommandJournalStatus, Option<JournalError>)>))
    requires
        existing@ == payload_hash,
        journaled_dispatch(JournalInsertOutcome::Duplicate { status, payload_hash: existing }, payload_hash, catalogue,
            internal_code, r),
    ensures
        status != CommandJournalStatus::Failed ==> r.0 == JournaledOutcome::Deduplicated(status) && r.1 is None,
        r.0 is Executed <==> status == CommandJournalStatus::Failed,
        r.1 is Some <==> status == CommandJournalStatus::Failed,
        (status == CommandJournalStatus::Failed && r.0 == JournaledOutcome::Executed(Ok(())))
            ==> (r.1 matches Some(c) && c.0 == CommandJournalStatus::Succeeded),
{
}

/// The handler of a command runs at most once per message id and payload unless its run failed:
/// a re-delivery of a completed, non-failed command never runs it again, a failed one does, and a
/// different payload under a known id never does.
pub proof fn law_journal_runs_once_unless_failed(status: CommandJournalStatus, existing: String, payload_hash: Seq<char>)
    ensures
        existing@ == payload_hash && status != CommandJournalStatus::Failed ==>
            dedup_verdict_spec(JournalInsertOutcome::Duplicate { status, payload_hash: existing }, payload_hash)
                == Some(JournaledOutcome::Deduplicated(status)),
        existing@ == payload_hash && status == CommandJournalStatus::Failed ==>
            dedup_verdict_spec(JournalInsertOutcome::Duplicate { status, payload_hash: existing }, payload_hash) is None,
        existing@ != payload_hash ==>
            dedup_verdict_spec(JournalInsertOutcome::Duplicate { status, payload_hash: existing }, payload_hash)
                == Some(JournaledOutcome::PayloadConflict { existing_status: status }),
{
}

} // verus!
