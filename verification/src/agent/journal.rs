//! The operation journal: the states an agent operation goes through.

use vstd::prelude::*;

verus! {

/// The status of a journalled operation.
#[derive(Debug, Clone, Copy, PartialEq, Eq)]
pub enum OpStatus {
    /// Started and not yet finished.
    Pending,
    /// Finished successfully.
    Done,
    /// Finished with an error.
    Failed,
}

/// The text stored for a status.
pub open spec fn op_status_text(s: OpStatus) -> Seq<char> {
    match s {
        OpStatus::Pending => "pending"@,
        OpStatus::Done => "done"@,
        OpStatus::Failed => "failed"@,
    }
}

impl OpStatus {
    /// The text stored for the status: `pending`, `done` or `failed`.
    pub fn as_str(&self) -> (r: &'static str)
        ensures
            r@ == op_status_text(*self),
    {
        match self {
            OpStatus::Pending => "pending",
            OpStatus::Done => "done",
            OpStatus::Failed => "failed",
        }
    }
}

/// Distinct statuses are stored as distinct texts.
pub proof fn lemma_op_status_text_injective(a: OpStatus, b: OpStatus)
    requires
        op_status_text(a) == op_status_text(b),
    ensures
        a == b,
{
    reveal_strlit("pending");
    reveal_strlit("done");
    reveal_strlit("failed");
    assert("pending"@.len() == 7);
    assert("done"@.len() == 4);
    assert("failed"@.len() == 6);
    assert(op_status_text(a).len() == op_status_text(b).len());
}


/// One journalled operation: its id, kind, the domain it concerns, its
/// request as JSON text, its status, when it was created and last updated
/// (Unix seconds) and the error it failed with.
#[derive(Debug)]
pub struct JournalEntry {
    pub id: String,
    pub op_type: String,
    pub domain: Option<String>,
    pub payload: String,
    pub status: OpStatus,
    pub created_at: i64,
    pub updated_at: i64,
    pub error_msg: Option<String>,
}

fn copy_text(s: &Option<String>) -> (r: Option<String>)
    ensures
        r == *s,
{
    match s {
        Some(t) => Some(t.clone()),
        None => None,
    }
}

/// A copy of an entry.
fn copy_entry(e: &JournalEntry) -> (r: JournalEntry)
    ensures
        r == *e,
{
    JournalEntry {
        id: e.id.clone(),
        op_type: e.op_type.clone(),
        domain: copy_text(&e.domain),
        payload: e.payload.clone(),
        status: e.status,
        created_at: e.created_at,
        updated_at: e.updated_at,
        error_msg: copy_text(&e.error_msg),
    }
}

/// The journal: its entries, kept in order of creation time (entries
/// created at the same second in the order they were begun), each under an
/// id of its own.
pub struct Journal {
    entries: Vec<JournalEntry>,
}

/// Why the journal refused to record an operation.
#[derive(Debug, Clone, Copy, PartialEq, Eq)]
pub enum JournalError {
    /// An entry with the same id is already in the journal.
    DuplicateId,
}

/// No two entries share an id.
pub open spec fn ids_unique(entries: Seq<JournalEntry>) -> bool {
    forall|i: int, j: int| 0 <= i < j < entries.len() ==> entries[i].id@ != entries[j].id@
}

/// The entry recorded when the operation `id` begins at `now`.
pub open spec fn begun_entry(id: String, op_type: String, domain: Option<String>, payload: String, now: i64) -> JournalEntry {
    JournalEntry {
        id,
        op_type,
        domain,
        payload,
        status: OpStatus::Pending,
        created_at: now,
        updated_at: now,
        error_msg: None,
    }
}

/// A fresh operation id: `uuid::Uuid::new_v4` written out through its
/// `Display` impl (the hyphenated lower-case form). The id is random, so
/// nothing is stated of it.
#[verifier::external_body]
fn new_op_id() -> String {
    uuid::Uuid::new_v4().to_string()
}

/// Entries are in nondecreasing order of creation time.
pub open spec fn by_creation(entries: Seq<JournalEntry>) -> bool {
    forall|i: int, j: int| 0 <= i < j < entries.len() ==> entries[i].created_at <= entries[j].created_at
}

/// Where an entry created at `t` goes: after every entry created at or
/// before `t`.
pub open spec fn insert_pos(entries: Seq<JournalEntry>, t: i64) -> int
    decreases entries.len(),
{
    if entries.len() == 0 {
        0
    } else if entries.last().created_at <= t {
        entries.len() as int
    } else {
        insert_pos(entries.drop_last(), t)
    }
}

/// `after` is `before` once the operation `id` ended with `status` at
/// `now` (with `error` recorded, if given): an entry of that operation gets
/// the status and update time, everything else stays.
pub open spec fn ended(
    after: JournalEntry,
    before: JournalEntry,
    id: Seq<char>,
    status: OpStatus,
    error: Option<Seq<char>>,
    now: i64,
) -> bool {
    if before.id@ == id {
        &&& after.id == before.id
        &&& after.op_type == before.op_type
        &&& after.domain == before.domain
        &&& after.payload == before.payload
        &&& after.created_at == before.created_at
        &&& after.status == status
        &&& after.updated_at == now
        &&& match error {
            Some(m) => after.error_msg matches Some(x) && x@ == m,
            None => after.error_msg == before.error_msg,
        }
    } else {
        after == before
    }
}

/// The journal after the operation `id` ended.
pub open spec fn all_ended(
    after: Seq<JournalEntry>,
    before: Seq<JournalEntry>,
    id: Seq<char>,
    status: OpStatus,
    error: Option<Seq<char>>,
    now: i64,
) -> bool {
    after.len() == before.len() && forall|k: int|
        0 <= k < before.len() ==> ended(#[trigger] after[k], before[k], id, status, error, now)
}

/// The pending entries, in journal order.
pub open spec fn pending(entries: Seq<JournalEntry>) -> Seq<JournalEntry>
    decreases entries.len(),
{
    if entries.len() == 0 {
        Seq::empty()
    } else if entries.last().status == OpStatus::Pending {
        pending(entries.drop_last()).push(entries.last())
    } else {
        pending(entries.drop_last())
    }
}

/// The pending entries are exactly the journal's entries whose status is
/// pending.
pub proof fn lemma_pending_members(entries: Seq<JournalEntry>, x: JournalEntry)
    ensures
        pending(entries).contains(x) <==> (entries.contains(x) && x.status == OpStatus::Pending),
    decreases entries.len(),
{
    if entries.len() > 0 {
        let init = entries.drop_last();
        lemma_pending_members(init, x);
        assert(entries =~= init.push(entries.last()));
        if entries.contains(x) && x != entries.last() {
            let i = choose|i: int| 0 <= i < entries.len() && entries[i] == x;
            assert(i < init.len());
            assert(init[i] == x);
        }
        if init.contains(x) {
            let i = choose|i: int| 0 <= i < init.len() && init[i] == x;
            assert(entries[i] == x);
        }
        if entries.last().status == OpStatus::Pending {
            let p = pending(init);
            if p.push(entries.last()).contains(x) && x != entries.last() {
                let i = choose|i: int| 0 <= i < p.push(entries.last()).len() && p.push(entries.last())[i] == x;
                assert(p[i] == x);
            }
            if p.contains(x) {
                let i = choose|i: int| 0 <= i < p.len() && p[i] == x;
                assert(p.push(entries.last())[i] == x);
            }
            assert(p.push(entries.last())[p.len() as int] == entries.last());
        }
    } else {
        assert(pending(entries) =~= Seq::<JournalEntry>::empty());
    }
}

/// Pending operations come out oldest first: in a well-formed journal the
/// pending entries are in order of creation time.
pub proof fn lemma_pending_by_creation(entries: Seq<JournalEntry>)
    requires
        by_creation(entries),
    ensures
        by_creation(pending(entries)),
    decreases entries.len(),
{
    if entries.len() > 0 {
        let init = entries.drop_last();
        assert(by_creation(init)) by {
            assert forall|i: int, j: int| 0 <= i < j < init.len() implies init[i].created_at
                <= init[j].created_at by {
                assert(init[i] == entries[i] && init[j] == entries[j]);
            }
        }
        lemma_pending_by_creation(init);
        if entries.last().status == OpStatus::Pending {
            let p = pending(init);
            let q = p.push(entries.last());
            assert forall|i: int, j: int| 0 <= i < j < q.len() implies q[i].created_at <= q[j].created_at by {
                if j == p.len() {
                    lemma_pending_members(init, p[i]);
                    assert(p.contains(p[i]));
                    let a = choose|a: int| 0 <= a < init.len() && init[a] == p[i];
                    assert(entries[a] == init[a]);
                    assert(entries[a].created_at <= entries[entries.len() - 1].created_at);
                } else {
                    assert(q[i] == p[i] && q[j] == p[j]);
                }
            }
        }
    }
}

/// An operation that has ended is no longer pending.
pub proof fn lemma_ended_not_pending(
    after: Seq<JournalEntry>,
    before: Seq<JournalEntry>,
    id: Seq<char>,
    status: OpStatus,
    error: Option<Seq<char>>,
    now: i64,
)
    requires
        all_ended(after, before, id, status, error, now),
        status != OpStatus::Pending,
    ensures
        forall|k: int| 0 <= k < pending(after).len() ==> (#[trigger] pending(after)[k]).id@ != id,
{
    assert forall|k: int| 0 <= k < pending(after).len() implies (#[trigger] pending(after)[k]).id@ != id by {
        let x = pending(after)[k];
        assert(pending(after).contains(x));
        lemma_pending_members(after, x);
        let i = choose|i: int| 0 <= i < after.len() && after[i] == x;
        assert(ended(after[i], before[i], id, status, error, now));
    }
}

/// A newly begun operation is pending.
pub proof fn lemma_begun_is_pending(entries: Seq<JournalEntry>, k: int, e: JournalEntry)
    requires
        0 <= k <= entries.len(),
        e.status == OpStatus::Pending,
    ensures
        pending(entries.insert(k, e)).contains(e),
{
    assert(entries.insert(k, e)[k] == e);
    assert(entries.insert(k, e).contains(e));
    lemma_pending_members(entries.insert(k, e), e);
}

/// The pending entries of a journal whose ids are unique have unique ids.
pub proof fn lemma_pending_ids_unique(entries: Seq<JournalEntry>)
    requires
        ids_unique(entries),
    ensures
        ids_unique(pending(entries)),
    decreases entries.len(),
{
    if entries.len() > 0 {
        let init = entries.drop_last();
        assert forall|i: int, j: int| 0 <= i < j < init.len() implies init[i].id@ != init[j].id@ by {
            assert(init[i] == entries[i] && init[j] == entries[j]);
        }
        lemma_pending_ids_unique(init);
        if entries.last().status == OpStatus::Pending {
            let p = pending(init);
            let q = p.push(entries.last());
            assert forall|i: int, j: int| 0 <= i < j < q.len() implies q[i].id@ != q[j].id@ by {
                if j == p.len() {
                    assert(q[i] == p[i]);
                    assert(p.contains(p[i]));
                    lemma_pending_members(init, p[i]);
                    let a = choose|a: int| 0 <= a < init.len() && init[a] == p[i];
                    assert(entries[a] == init[a]);
                    assert(entries[a].id@ != entries[entries.len() - 1].id@);
                } else {
                    assert(q[i] == p[i] && q[j] == p[j]);
                }
            }
        }
    }
}

/// Once an operation is begun under an id that no entry had, the pending
/// entries hold its entry, and no other entry under that id.
pub proof fn lemma_begun_pending_once(entries: Seq<JournalEntry>, k: int, e: JournalEntry)
    requires
        ids_unique(entries),
        forall|i: int| 0 <= i < entries.len() ==> (#[trigger] entries[i]).id@ != e.id@,
        0 <= k <= entries.len(),
        e.status == OpStatus::Pending,
    ensures
        pending(entries.insert(k, e)).contains(e),
        forall|i: int|
            0 <= i < pending(entries.insert(k, e)).len() && (#[trigger] pending(entries.insert(k, e))[i]).id@ == e.id@
                ==> pending(entries.insert(k, e))[i] == e,
{
    let after = entries.insert(k, e);
    assert forall|i: int, j: int| 0 <= i < j < after.len() implies after[i].id@ != after[j].id@ by {
        if i < k && j < k {
            assert(after[i] == entries[i] && after[j] == entries[j]);
        } else if i < k && j == k {
            assert(after[i] == entries[i]);
        } else if i < k {
            assert(after[i] == entries[i] && after[j] == entries[j - 1]);
        } else if i == k {
            assert(after[j] == entries[j - 1]);
        } else {
            assert(after[i] == entries[i - 1] && after[j] == entries[j - 1]);
        }
    }
    lemma_begun_is_pending(entries, k, e);
    lemma_pending_ids_unique(after);
    let p = pending(after);
    assert forall|i: int| 0 <= i < p.len() && (#[trigger] p[i]).id@ == e.id@ implies p[i] == e by {
        let j = choose|j: int| 0 <= j < p.len() && p[j] == e;
        if i < j {
            assert(p[i].id@ != p[j].id@);
        } else if j < i {
            assert(p[j].id@ != p[i].id@);
        }
    }
}

proof fn lemma_insert_pos(entries: Seq<JournalEntry>, t: i64)
    requires
        by_creation(entries),
    ensures
        0 <= insert_pos(entries, t) <= entries.len(),
        forall|i: int| 0 <= i < insert_pos(entries, t) ==> entries[i].created_at <= t,
        forall|i: int| insert_pos(entries, t) <= i < entries.len() ==> entries[i].created_at > t,
    decreases entries.len(),
{
    if entries.len() > 0 {
        let init = entries.drop_last();
        let n = entries.len() - 1;
        if entries.last().created_at > t {
            assert(by_creation(init)) by {
                assert forall|i: int, j: int| 0 <= i < j < init.len() implies init[i].created_at
                    <= init[j].created_at by {
                    assert(init[i] == entries[i] && init[j] == entries[j]);
                }
            }
            lemma_insert_pos(init, t);
            assert forall|i: int| 0 <= i < insert_pos(entries, t) implies entries[i].created_at <= t by {
                assert(init[i] == entries[i]);
            }
            assert forall|i: int| insert_pos(entries, t) <= i < entries.len() implies entries[i].created_at
                > t by {
                if i < n {
                    assert(init[i] == entries[i]);
                }
            }
        } else {
            assert forall|i: int| 0 <= i < insert_pos(entries, t) implies entries[i].created_at <= t by {
                if i < n {
                    assert(entries[i].created_at <= entries[n].created_at);
                }
            }
        }
    }
}

impl Journal {
    /// The journal's entries, in journal order.
    pub closed spec fn rows(&self) -> Seq<JournalEntry> {
        self.entries@
    }

    /// Some entry of the journal has the id `id`.
    pub open spec fn holds_id(&self, id: Seq<char>) -> bool {
        exists|k: int| 0 <= k < self.rows().len() && (#[trigger] self.rows()[k]).id@ == id
    }

    /// The journal's well-formedness: entries in order of creation time,
    /// each under an id of its own.
    pub open spec fn wf(&self) -> bool {
        by_creation(self.rows()) && ids_unique(self.rows())
    }

    /// An empty journal.
    pub fn new() -> (r: Journal)
        ensures
            r.wf(),
            r.rows().len() == 0,
    {
        Journal { entries: Vec::new() }
    }

    /// A journal holding `rows` as read back from storage: refused (`None`)
    /// unless they are in order of creation time and no two share an id.
    pub fn from_rows(rows: Vec<JournalEntry>) -> (r: Option<Journal>)
        ensures
            r is Some <==> (by_creation(rows@) && ids_unique(rows@)),
            r matches Some(j) ==> j.wf() && j.rows() == rows@,
    {
        let n = rows.len();
        let mut i: usize = 0;
        while i < n
            invariant
                n == rows@.len(),
                i <= n,
                by_creation(rows@.take(i as int)),
                ids_unique(rows@.take(i as int)),
            decreases n - i,
        {
            if i > 0 && rows[i - 1].created_at > rows[i].created_at {
                assert(!by_creation(rows@)) by {
                    assert(rows@[i - 1].created_at > rows@[i as int].created_at);
                }
                return None;
            }
            let mut j: usize = 0;
            while j < i
                invariant
                    n == rows@.len(),
                    j <= i < n,
                    forall|k: int| 0 <= k < j ==> (#[trigger] rows@[k]).id@ != rows@[i as int].id@,
                decreases i - j,
            {
                if crate::text::str_eq(rows[j].id.as_str(), rows[i].id.as_str()) {
                    assert(!ids_unique(rows@)) by {
                        assert(rows@[j as int].id@ == rows@[i as int].id@);
                    }
                    return None;
                }
                j = j + 1;
            }
            proof {
                let t = rows@.take(i + 1);
                let u = rows@.take(i as int);
                assert forall|a: int, b: int| 0 <= a < b < t.len() implies t[a].created_at <= t[b].created_at
                    && t[a].id@ != t[b].id@ by {
                    assert(t[a] == rows@[a] && t[b] == rows@[b]);
                    if b < i {
                        assert(u[a] == rows@[a] && u[b] == rows@[b]);
                    } else if a < i - 1 {
                        assert(u[a] == rows@[a] && u[i - 1] == rows@[i - 1]);
                    }
                }
            }
            i = i + 1;
        }
        assert(rows@.take(n as int) =~= rows@);
        Some(Journal { entries: rows })
    }

    /// The journal's entries, in journal order.
    pub fn entries(&self) -> (r: &Vec<JournalEntry>)
        ensures
            r@ == self.rows(),
    {
        &self.entries
    }

    /// Whether an entry with the id `id` is in the journal.
    pub fn has_id(&self, id: &str) -> (r: bool)
        ensures
            r == self.holds_id(id@),
    {
        let mut i: usize = 0;
        while i < self.entries.len()
            invariant
                i <= self.entries@.len(),
                forall|k: int| 0 <= k < i ==> (#[trigger] self.entries@[k]).id@ != id@,
            decreases self.entries@.len() - i,
        {
            if crate::text::str_eq(self.entries[i].id.as_str(), id) {
                assert(self.rows()[i as int].id@ == id@);
                return true;
            }
            i = i + 1;
        }
        false
    }

    /// Records that an operation begins under a fresh random id (a
    /// version-4 UUID) and returns the id: a pending entry created and
    /// updated at `now`, placed after every entry created at or before it.
    /// Should the id already be taken, nothing is recorded and
    /// `DuplicateId` comes back.
    pub fn begin_op(&mut self, op_type: String, domain: Option<String>, payload: String, now: i64) -> (r: Result<
        String,
        JournalError,
    >)
        requires
            old(self).wf(),
        ensures
            final(self).wf(),
            match r {
                Ok(id) => {
                    &&& !old(self).holds_id(id@)
                    &&& final(self).rows() == old(self).rows().insert(
                        insert_pos(old(self).rows(), now),
                        begun_entry(id, op_type, domain, payload, now),
                    )
                },
                Err(_) => final(self).rows() == old(self).rows(),
            },
    {
        let id = new_op_id();
        match self.begin_op_with_id(id.clone(), op_type, domain, payload, now) {
            Ok(()) => Ok(id),
            Err(e) => Err(e),
        }
    }

    /// Records that the operation `id` begins: a pending entry created and
    /// updated at `now`, placed after every entry created at or before it.
    /// Refused with `DuplicateId`, the journal unchanged, where an entry
    /// with that id is already there.
    pub fn begin_op_with_id(&mut self, id: String, op_type: String, domain: Option<String>, payload: String, now: i64) -> (r: Result<
        (),
        JournalError,
    >)
        requires
            old(self).wf(),
        ensures
            final(self).wf(),
            r is Err <==> old(self).holds_id(id@),
            match r {
                Ok(()) => final(self).rows() == old(self).rows().insert(
                    insert_pos(old(self).rows(), now),
                    begun_entry(id, op_type, domain, payload, now),
                ),
                Err(e) => e == JournalError::DuplicateId && final(self).rows() == old(self).rows(),
            },
    {
        if self.has_id(id.as_str()) {
            return Err(JournalError::DuplicateId);
        }
        let ghost old_entries = self.entries@;
        proof {
            lemma_insert_pos(old_entries, now);
        }
        let mut k: usize = self.entries.len();
        while k > 0 && self.entries[k - 1].created_at > now
            invariant
                self.entries@ == old_entries,
                by_creation(old_entries),
                k <= old_entries.len(),
                forall|i: int| k <= i < old_entries.len() ==> old_entries[i].created_at > now,
                forall|i: int| 0 <= i < insert_pos(old_entries, now) ==> old_entries[i].created_at <= now,
                0 <= insert_pos(old_entries, now) <= old_entries.len(),
                insert_pos(old_entries, now) <= k,
            decreases k,
        {
            k = k - 1;
        }
        assert(k == insert_pos(old_entries, now)) by {
            if k > 0 {
                assert(old_entries[k - 1].created_at <= now);
            }
        }
        let ghost e_spec = begun_entry(id, op_type, domain, payload, now);
        let e = JournalEntry {
            id,
            op_type,
            domain,
            payload,
            status: OpStatus::Pending,
            created_at: now,
            updated_at: now,
            error_msg: None,
        };
        assert(e == e_spec);
        self.entries.insert(k, e);
        proof {
            let ne = self.entries@;
            assert forall|i: int, j: int| 0 <= i < j < ne.len() implies ne[i].created_at <= ne[j].created_at
                && ne[i].id@ != ne[j].id@ by {
                if i < k as int && j < k as int {
                    assert(ne[i] == old_entries[i] && ne[j] == old_entries[j]);
                } else if i < k as int && j == k as int {
                    assert(ne[i] == old_entries[i]);
                } else if i < k as int {
                    assert(ne[i] == old_entries[i] && ne[j] == old_entries[j - 1]);
                } else if i == k as int {
                    assert(ne[j] == old_entries[j - 1]);
                } else {
                    assert(ne[i] == old_entries[i - 1] && ne[j] == old_entries[j - 1]);
                }
            }
        }
        Ok(())
    }

    /// Marks the operation `id` with a final status at `now` (and an error
    /// text for a failure); creation times are unchanged.
    fn end_op(&mut self, id: &str, status: OpStatus, error: Option<&str>, now: i64)
        requires
            old(self).wf(),
        ensures
            final(self).wf(),
            all_ended(
                final(self).rows(),
                old(self).rows(),
                id@,
                status,
                match error {
                    Some(m) => Some(m@),
                    None => None,
                },
                now,
            ),
    {
        let ghost old_entries = self.entries@;
        let ghost err = match error {
            Some(m) => Some(m@),
            None => None,
        };
        let n = self.entries.len();
        let mut i: usize = 0;
        while i < n
            invariant
                n == old_entries.len(),
                self.entries@.len() == n,
                i <= n,
                by_creation(old_entries),
                ids_unique(old_entries),
                err == (match error {
                    Some(m) => Some(m@),
                    None => None::<Seq<char>>,
                }),
                forall|k: int| 0 <= k < i ==> ended(#[trigger] self.entries@[k], old_entries[k], id@, status, err, now),
                forall|k: int| i <= k < n ==> #[trigger] self.entries@[k] == old_entries[k],
            decreases n - i,
        {
            if crate::text::str_eq(self.entries[i].id.as_str(), id) {
                let mut e = copy_entry(&self.entries[i]);
                e.status = status;
                e.updated_at = now;
                match error {
                    Some(m) => {
                        e.error_msg = Some(String::from_str(m));
                    },
                    None => {},
                }
                self.entries.set(i, e);
                assert(ended(self.entries@[i as int], old_entries[i as int], id@, status, err, now));
            }
            i = i + 1;
        }
        assert forall|a: int, b: int| 0 <= a < b < n implies self.entries@[a].created_at <= self.entries@[b].created_at
            && self.entries@[a].id@ != self.entries@[b].id@ by {
            assert(ended(self.entries@[a], old_entries[a], id@, status, err, now));
            assert(ended(self.entries@[b], old_entries[b], id@, status, err, now));
        }
    }

    /// Records that the operation `id` finished: its entries become done,
    /// updated at `now`.
    pub fn finish_op(&mut self, id: &str, now: i64)
        requires
            old(self).wf(),
        ensures
            final(self).wf(),
            all_ended(final(self).rows(), old(self).rows(), id@, OpStatus::Done, None, now),
    {
        self.end_op(id, OpStatus::Done, None, now);
    }

    /// Records that the operation `id` failed with `error`: its entries
    /// become failed, with the error, updated at `now`.
    pub fn fail_op(&mut self, id: &str, error: &str, now: i64)
        requires
            old(self).wf(),
        ensures
            final(self).wf(),
            all_ended(final(self).rows(), old(self).rows(), id@, OpStatus::Failed, Some(error@), now),
    {
        self.end_op(id, OpStatus::Failed, Some(error), now);
    }

    /// The operations still pending, oldest first, each under an id of
    /// its own.
    pub fn pending_ops(&self) -> (r: Vec<JournalEntry>)
        requires
            self.wf(),
        ensures
            r@ == pending(self.rows()),
            by_creation(r@),
            ids_unique(r@),
    {
        proof {
            lemma_pending_by_creation(self.entries@);
            lemma_pending_ids_unique(self.entries@);
        }
        let mut out: Vec<JournalEntry> = Vec::new();
        let mut i: usize = 0;
        while i < self.entries.len()
            invariant
                i <= self.entries@.len(),
                out@ == pending(self.entries@.take(i as int)),
            decreases self.entries@.len() - i,
        {
            assert(self.entries@.take(i + 1).drop_last() =~= self.entries@.take(i as int));
            match self.entries[i].status {
                OpStatus::Pending => out.push(copy_entry(&self.entries[i])),
                _ => {},
            }
            i = i + 1;
        }
        assert(self.entries@.take(self.entries@.len() as int) =~= self.entries@);
        out
    }
}

/// The agent's service: the journal its operations are recorded in.
pub struct AgentService {
    pub journal: Journal,
}

impl AgentService {
    /// Records how the operation `id` ended, from its outcome: done when it
    /// succeeded, failed with the error's text otherwise.
    pub fn settle_op<T>(&mut self, id: &str, outcome: &Result<T, crate::agent::AgentError>, now: i64)
        requires
            old(self).journal.wf(),
        ensures
            final(self).journal.wf(),
            match outcome {
                Ok(_) => all_ended(final(self).journal.rows(), old(self).journal.rows(), id@, OpStatus::Done, None, now),
                Err(e) => all_ended(
                    final(self).journal.rows(),
                    old(self).journal.rows(),
                    id@,
                    OpStatus::Failed,
                    Some(crate::agent::agent_error_text(*e)),
                    now,
                ),
            },
    {
        match outcome {
            Ok(_) => self.journal.finish_op(id, now),
            Err(e) => self.journal.fail_op(id, e.message(), now),
        }
    }
}

} // verus!
