//! Auth-session parking: the provider session a verification handler obtained waits here, keyed by
//! the acceptance message id and owned by the anonymous session that sent the command, until the
//! client claims it — once, and only with the owning session.

use vstd::prelude::*;
use crate::errors::DomainError;

verus! {

/// A provider session awaiting cookie pickup.
#[derive(Debug, Clone, PartialEq, Eq)]
pub struct ParkedAuthSession {
    /// The acceptance handle of the verifying command.
    pub message_id: u128,
    /// The anonymous session that sent it — the claim-ownership key.
    pub session_id: Option<u128>,
    pub access_token: String,
    pub refresh_token: Option<String>,
    /// Access-token lifetime in seconds, as the provider reported it.
    pub expires_in: Option<i64>,
}

impl ParkedAuthSession {
    /// A field-for-field copy.
    pub fn duplicate(&self) -> (r: Self)
        ensures
            r == *self,
    {
        ParkedAuthSession {
            message_id: self.message_id,
            session_id: self.session_id,
            access_token: self.access_token.clone(),
            refresh_token: match &self.refresh_token {
                Some(t) => Some(t.clone()),
                None => None,
            },
            expires_in: self.expires_in,
        }
    }
}

/// The parking store (the infrastructure implements it, encrypted at rest).
pub trait AuthSessionStore {
    /// Parks a session for pickup (a re-park under the same message id replaces).
    fn park(&mut self, session: ParkedAuthSession) -> Result<(), DomainError>;

    /// Claim-and-delete: the session iff it is parked under `message_id` and owned by `session_id`;
    /// a mismatch answers `None` exactly like absence.
    fn claim(&mut self, message_id: u128, session_id: Option<u128>) -> Result<Option<ParkedAuthSession>, DomainError>;
}

/// The fail-closed default: parking succeeds and stores nothing; claiming never yields.
#[derive(Debug, Default)]
pub struct NoopAuthSessionStore;

impl AuthSessionStore for NoopAuthSessionStore {
    fn park(&mut self, session: ParkedAuthSession) -> (r: Result<(), DomainError>)
        ensures
            r is Ok,
    {
        Ok(())
    }

    fn claim(&mut self, message_id: u128, session_id: Option<u128>) -> (r: Result<Option<ParkedAuthSession>, DomainError>)
        ensures
            r == Ok::<Option<ParkedAuthSession>, DomainError>(None),
    {
        Ok(None)
    }
}

/// The rows not parked under message id `m`.
pub open spec fn others(rows: Seq<ParkedAuthSession>, m: u128) -> Seq<ParkedAuthSession> {
    rows.filter(|r: ParkedAuthSession| r.message_id != m)
}

/// The rows after parking `s`: any row under the same message id is replaced.
pub open spec fn park_spec(rows: Seq<ParkedAuthSession>, s: ParkedAuthSession) -> Seq<ParkedAuthSession> {
    others(rows, s.message_id).push(s)
}

/// The row a claim matches: message id and owning session both equal.
pub open spec fn claim_matches(r: ParkedAuthSession, message_id: u128, session_id: Option<u128>) -> bool {
    r.message_id == message_id && r.session_id == session_id
}

/// The first row a claim matches, if any.
pub open spec fn claim_index(rows: Seq<ParkedAuthSession>, message_id: u128, session_id: Option<u128>) -> Option<int> {
    if exists|i: int| 0 <= i < rows.len() && claim_matches(#[trigger] rows[i], message_id, session_id) {
        Some(choose|i: int| 0 <= i < rows.len() && claim_matches(#[trigger] rows[i], message_id, session_id)
            && forall|j: int| 0 <= j < i ==> !claim_matches(#[trigger] rows[j], message_id, session_id))
    } else {
        None
    }
}

/// What a claim hands back and the rows it leaves.
pub open spec fn claim_spec(rows: Seq<ParkedAuthSession>, message_id: u128, session_id: Option<u128>)
    -> (Option<ParkedAuthSession>, Seq<ParkedAuthSession>)
{
    match claim_index(rows, message_id, session_id) {
        Some(i) => (Some(rows[i]), rows.remove(i)),
        None => (None, rows),
    }
}

/// At most one parked row per message id.
pub open spec fn unique_message_ids(rows: Seq<ParkedAuthSession>) -> bool {
    forall|i: int, j: int| 0 <= i < rows.len() && 0 <= j < rows.len() && i != j
        ==> #[trigger] rows[i].message_id != #[trigger] rows[j].message_id
}

/// The in-memory store for tests and the behaviour runtime.
#[derive(Debug, Default)]
pub struct MemAuthSessionStore {
    rows: Vec<ParkedAuthSession>,
}

impl View for MemAuthSessionStore {
    type V = Seq<ParkedAuthSession>;

    closed spec fn view(&self) -> Seq<ParkedAuthSession> {
        self.rows@
    }
}

impl MemAuthSessionStore {
    /// An empty store.
    pub fn new() -> (s: Self)
        ensures
            s@ == Seq::<ParkedAuthSession>::empty(),
    {
        MemAuthSessionStore { rows: Vec::new() }
    }

    /// Every parked session, in parking order.
    pub fn parked(&self) -> (v: Vec<ParkedAuthSession>)
        ensures
            v@ == self@,
    {
        let mut v: Vec<ParkedAuthSession> = Vec::new();
        let mut i: usize = 0;
        while i < self.rows.len()
            invariant
                i <= self.rows.len(),
                v@ == self.rows@.subrange(0, i as int),
            decreases self.rows.len() - i,
        {
            v.push(self.rows[i].duplicate());
            i += 1;
            assert(v@ =~= self.rows@.subrange(0, i as int));
        }
        assert(self.rows@.subrange(0, self.rows@.len() as int) =~= self.rows@);
        v
    }
}

proof fn lemma_filter_step(s: Seq<ParkedAuthSession>, m: u128, i: int)
    requires
        0 <= i < s.len(),
    ensures
        s.subrange(0, i + 1).filter(|r: ParkedAuthSession| r.message_id != m)
            == (if s[i].message_id != m {
                s.subrange(0, i).filter(|r: ParkedAuthSession| r.message_id != m).push(s[i])
            } else {
                s.subrange(0, i).filter(|r: ParkedAuthSession| r.message_id != m)
            }),
{
    let p = s.subrange(0, i + 1);
    assert(p.drop_last() =~= s.subrange(0, i));
    reveal_with_fuel(Seq::filter, 1);
}

impl AuthSessionStore for MemAuthSessionStore {
    fn park(&mut self, session: ParkedAuthSession) -> (r: Result<(), DomainError>)
        ensures
            r is Ok,
            final(self)@ == park_spec(old(self)@, session),
    {
        let ghost old_rows = self.rows@;
        let mut kept: Vec<ParkedAuthSession> = Vec::new();
        let mut i: usize = 0;
        let n = self.rows.len();
        while i < n
            invariant
                n == self.rows.len(),
                self.rows@ == old_rows,
                i <= n,
                kept@ == old_rows.subrange(0, i as int).filter(|r: ParkedAuthSession| r.message_id != session.message_id),
            decreases n - i,
        {
            proof {
                lemma_filter_step(old_rows, session.message_id, i as int);
            }
            if self.rows[i].message_id != session.message_id {
                kept.push(self.rows[i].duplicate());
            }
            i += 1;
        }
        assert(old_rows.subrange(0, n as int) =~= old_rows);
        kept.push(session);
        self.rows = kept;
        Ok(())
    }

    fn claim(&mut self, message_id: u128, session_id: Option<u128>) -> (r: Result<Option<ParkedAuthSession>, DomainError>)
        ensures
            r == Ok::<Option<ParkedAuthSession>, DomainError>(claim_spec(old(self)@, message_id, session_id).0),
            final(self)@ == claim_spec(old(self)@, message_id, session_id).1,
    {
        let ghost old_rows = self.rows@;
        let mut i: usize = 0;
        while i < self.rows.len()
            invariant
                self.rows@ == old_rows,
                old_rows == old(self)@,
                i <= self.rows.len(),
                forall|j: int| 0 <= j < i ==> !claim_matches(#[trigger] self.rows@[j], message_id, session_id),
            decreases self.rows.len() - i,
        {
            if self.rows[i].message_id == message_id && self.rows[i].session_id == session_id {
                proof {
                    let k = choose|k: int| 0 <= k < self.rows@.len() && claim_matches(#[trigger] self.rows@[k], message_id, session_id)
                        && forall|j: int| 0 <= j < k ==> !claim_matches(#[trigger] self.rows@[j], message_id, session_id);
                    assert(claim_matches(self.rows@[i as int], message_id, session_id));
                    if k < i {
                        assert(!claim_matches(self.rows@[k], message_id, session_id));
                    }
                    if i < k {
                        assert(!claim_matches(self.rows@[i as int], message_id, session_id));
                    }
                    assert(claim_index(old_rows, message_id, session_id) == Some(i as int));
                }
                let hit = self.rows.remove(i);
                return Ok(Some(hit));
            }
            i += 1;
        }
        assert(claim_index(old_rows, message_id, session_id) is None);
        Ok(None)
    }
}

proof fn lemma_filter_unique(rows: Seq<ParkedAuthSession>, m: u128)
    requires
        unique_message_ids(rows),
    ensures
        unique_message_ids(others(rows, m)),
        forall|k: int| 0 <= k < others(rows, m).len() ==> (#[trigger] others(rows, m)[k]).message_id != m,
        forall|k: int| 0 <= k < others(rows, m).len() ==> rows.contains(#[trigger] others(rows, m)[k]),
    decreases rows.len(),
{
    let pred = |r: ParkedAuthSession| r.message_id != m;
    reveal_with_fuel(Seq::filter, 1);
    if rows.len() > 0 {
        let d = rows.drop_last();
        assert forall|i: int, j: int| 0 <= i < d.len() && 0 <= j < d.len() && i != j
            implies #[trigger] d[i].message_id != #[trigger] d[j].message_id by {
            assert(d[i] == rows[i]);
            assert(d[j] == rows[j]);
        }
        lemma_filter_unique(d, m);
        let fd = others(d, m);
        let f = others(rows, m);
        assert forall|k: int| 0 <= k < fd.len() implies (#[trigger] fd[k]).message_id != rows.last().message_id by {
            assert(d.contains(fd[k]));
            let x = choose|x: int| 0 <= x < d.len() && d[x] == fd[k];
            assert(rows[x] == d[x]);
            assert(rows[x].message_id != rows[rows.len() - 1].message_id);
        }
        assert forall|k: int| 0 <= k < fd.len() implies rows.contains(#[trigger] fd[k]) by {
            assert(d.contains(fd[k]));
            let x = choose|x: int| 0 <= x < d.len() && d[x] == fd[k];
            assert(rows[x] == d[x]);
        }
        if pred(rows.last()) {
            assert(f =~= fd.push(rows.last()));
            assert(rows.contains(rows.last())) by {
                assert(rows[rows.len() - 1] == rows.last());
            }
        } else {
            assert(f =~= fd);
        }
    }
}

/// Parking keeps at most one row per message id, and the parked session is among the rows.
pub proof fn law_park_keeps_one_row_per_message(rows: Seq<ParkedAuthSession>, s: ParkedAuthSession)
    requires
        unique_message_ids(rows),
    ensures
        unique_message_ids(park_spec(rows, s)),
        park_spec(rows, s).contains(s),
{
    let f = rows.filter(|r: ParkedAuthSession| r.message_id != s.message_id);
    lemma_filter_unique(rows, s.message_id);
    let p = park_spec(rows, s);
    assert(p[p.len() - 1] == s);
    assert forall|i: int, j: int| 0 <= i < p.len() && 0 <= j < p.len() && i != j
        implies #[trigger] p[i].message_id != #[trigger] p[j].message_id by {
        if i < f.len() {
            assert(p[i] == f[i]);
        }
        if j < f.len() {
            assert(p[j] == f[j]);
        }
    }
}

/// A claim is single-read: once the owner has claimed a session, claiming it again yields nothing.
pub proof fn law_claim_is_single_read(rows: Seq<ParkedAuthSession>, message_id: u128, session_id: Option<u128>)
    requires
        unique_message_ids(rows),
    ensures
        claim_spec(claim_spec(rows, message_id, session_id).1, message_id, session_id).0 is None,
{
    let after = claim_spec(rows, message_id, session_id).1;
    match claim_index(rows, message_id, session_id) {
        Some(i) => {
            let k = choose|k: int| 0 <= k < rows.len() && claim_matches(#[trigger] rows[k], message_id, session_id)
                && forall|j: int| 0 <= j < k ==> !claim_matches(#[trigger] rows[j], message_id, session_id);
            assert forall|j: int| 0 <= j < after.len() implies !claim_matches(#[trigger] after[j], message_id, session_id) by {
                if j < i {
                    assert(after[j] == rows[j]);
                    assert(rows[j].message_id != rows[i].message_id);
                } else {
                    assert(after[j] == rows[j + 1]);
                    assert(rows[j + 1].message_id != rows[i].message_id);
                }
            }
        }
        None => {
            assert forall|j: int| 0 <= j < after.len() implies !claim_matches(#[trigger] after[j], message_id, session_id) by {}
        }
    }
}

/// A claim under any other owning session answers nothing and leaves the row for its owner.
pub proof fn law_claim_is_ownership_scoped(rows: Seq<ParkedAuthSession>, s: ParkedAuthSession, other: Option<u128>)
    requires
        unique_message_ids(rows),
        rows.contains(s),
        other != s.session_id,
    ensures
        claim_spec(rows, s.message_id, other).0 is None,
        claim_spec(rows, s.message_id, other).1 == rows,
        claim_spec(rows, s.message_id, s.session_id).0 == Some(s),
{
    let k = choose|k: int| 0 <= k < rows.len() && rows[k] == s;
    assert forall|j: int| 0 <= j < rows.len() implies !claim_matches(#[trigger] rows[j], s.message_id, other) by {
        if j != k {
            assert(rows[j].message_id != rows[k].message_id);
        }
    }
    assert(claim_matches(rows[k], s.message_id, s.session_id));
    let i = choose|i: int| 0 <= i < rows.len() && claim_matches(#[trigger] rows[i], s.message_id, s.session_id)
        && forall|j: int| 0 <= j < i ==> !claim_matches(#[trigger] rows[j], s.message_id, s.session_id);
    if i != k {
        assert(rows[i].message_id != rows[k].message_id);
    }
}

} // verus!
