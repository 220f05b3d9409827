use vstd::prelude::*;

verus! {

/// One persisted transcription: immutable once written, except for deletion.
#[derive(Debug)]
pub struct HistoryEntry {
    pub id: i64,
    pub text: String,
    pub created_at: String,
    pub duration_ms: Option<i64>,
    pub model: String,
}

/// Whether two entries carry the same record.
pub open spec fn entry_eq(a: HistoryEntry, b: HistoryEntry) -> bool {
    &&& a.id == b.id
    &&& a.text@ == b.text@
    &&& a.created_at@ == b.created_at@
    &&& a.duration_ms == b.duration_ms
    &&& a.model@ == b.model@
}

impl Clone for HistoryEntry {
    fn clone(&self) -> (r: Self)
        ensures
            entry_eq(r, *self),
    {
        HistoryEntry {
            id: self.id,
            text: self.text.clone(),
            created_at: self.created_at.clone(),
            duration_ms: self.duration_ms,
            model: self.model.clone(),
        }
    }
}

/// The durable log of completed transcriptions: an append-only list keyed by
/// an auto-incrementing identifier. This is the store's functional model;
/// the shell keeps it in step with its on-disk database.
pub struct HistoryStore {
    pub entries: Vec<HistoryEntry>,
    pub next_id: i64,
}

impl HistoryStore {
    /// Identifiers start at one, grow strictly along the log, and stay below
    /// the next identifier to be handed out.
    pub open spec fn wf(&self) -> bool {
        &&& 1 <= self.next_id
        &&& forall|i: int|
            0 <= i < self.entries@.len() ==> 1 <= #[trigger] self.entries@[i].id < self.next_id
        &&& forall|i: int, j: int|
            0 <= i < j < self.entries@.len() ==> self.entries@[i].id < self.entries@[j].id
    }

    /// Opens an empty store.
    pub fn new() -> (r: HistoryStore)
        ensures
            r.wf(),
            r.entries@.len() == 0,
            r.next_id == 1,
    {
        HistoryStore { entries: Vec::new(), next_id: 1 }
    }

    /// Appends one completed transcription and returns its identifier.
    pub fn insert(&mut self, text: String, duration_ms: i64, model: String, created_at: String)
        -> (r: i64)
        requires
            old(self).wf(),
            old(self).next_id < i64::MAX,
        ensures
            final(self).wf(),
            r == old(self).next_id,
            final(self).next_id == old(self).next_id + 1,
            final(self).entries@ == old(self).entries@.push(
                HistoryEntry {
                    id: old(self).next_id,
                    text,
                    created_at,
                    duration_ms: Some(duration_ms),
                    model,
                },
            ),
    {
        let id = self.next_id;
        self.entries.push(
            HistoryEntry { id, text, created_at, duration_ms: Some(duration_ms), model },
        );
        self.next_id = self.next_id + 1;
        id
    }

    /// The most recent entries, newest first, at most `limit` of them.
    pub fn list(&self, limit: usize) -> (r: Vec<HistoryEntry>)
        ensures
            r@.len() == if limit <= self.entries@.len() {
                limit as int
            } else {
                self.entries@.len() as int
            },
            forall|i: int|
                0 <= i < r@.len() ==> entry_eq(
                    #[trigger] r@[i],
                    self.entries@[self.entries@.len() - 1 - i],
                ),
    {
        let n = self.entries.len();
        let k = if limit <= n {
            limit
        } else {
            n
        };
        let mut r: Vec<HistoryEntry> = Vec::new();
        let mut i: usize = 0;
        while i < k
            invariant
                k <= n == self.entries@.len(),
                0 <= i <= k,
                r@.len() == i,
                forall|t: int|
                    0 <= t < i ==> entry_eq(#[trigger] r@[t], self.entries@[n - 1 - t]),
            decreases k - i,
        {
            let e = self.entries[n - 1 - i].clone();
            r.push(e);
            i = i + 1;
        }
        r
    }

    /// Deletes the entry with the given identifier, if it exists; any other
    /// identifier leaves the store unchanged.
    pub fn delete(&mut self, id: i64)
        requires
            old(self).wf(),
        ensures
            final(self).wf(),
            final(self).next_id == old(self).next_id,
            (forall|j: int|
                0 <= j < old(self).entries@.len() ==> #[trigger] old(self).entries@[j].id != id)
                ==> final(self).entries@ == old(self).entries@,
            forall|j: int|
                0 <= j < old(self).entries@.len() && #[trigger] old(self).entries@[j].id == id
                    ==> final(self).entries@ == old(self).entries@.remove(j),
    {
        let n = self.entries.len();
        let mut i: usize = 0;
        while i < n
            invariant
                old(self).wf(),
                *self == *old(self),
                n == self.entries@.len(),
                0 <= i <= n,
                forall|j: int| 0 <= j < i ==> #[trigger] self.entries@[j].id != id,
            decreases n - i,
        {
            if self.entries[i].id == id {
                let ghost oldseq = old(self).entries@;
                let ghost at = i as int;
                self.entries.remove(i);
                proof {
                    oldseq.remove_ensures(at);
                    assert forall|j: int|
                        0 <= j < oldseq.len() && #[trigger] oldseq[j].id == id implies
                        self.entries@ == oldseq.remove(j) by {
                        if j < at {
                            assert(oldseq[j].id != id);
                        }
                        if j > at {
                            assert(oldseq[at].id < oldseq[j].id);
                        }
                        assert(j == at);
                    }
                    assert forall|a: int, b: int|
                        0 <= a < b < self.entries@.len() implies self.entries@[a].id
                        < self.entries@[b].id by {
                        let a0 = if a < at {
                            a
                        } else {
                            a + 1
                        };
                        let b0 = if b < at {
                            b
                        } else {
                            b + 1
                        };
                        assert(self.entries@[a] == oldseq[a0]);
                        assert(self.entries@[b] == oldseq[b0]);
                        assert(oldseq[a0].id < oldseq[b0].id);
                    }
                }
                return ;
            }
            i = i + 1;
        }
    }
}

/// The number of entries a history query serves: the requested count, 15
/// when none was given, clamped to `[1, 500]`.
pub fn history_limit(requested: Option<i64>) -> (r: i64)
    ensures
        ({
            let want = if requested is Some {
                requested->0
            } else {
                15
            };
            r == if want < 1 {
                1int
            } else if want > 500 {
                500int
            } else {
                want as int
            }
        }),
{
    let want: i64 = match requested {
        Option::Some(v) => v,
        Option::None => 15,
    };
    if want < 1 {
        1
    } else if want > 500 {
        500
    } else {
        want
    }
}

/// How many times a busy store operation is retried before failing.
pub const MAX_DB_RETRIES: usize = 5;

/// Why a store operation failed, as far as the retry policy cares: the
/// database was busy, locked, or failed for some other reason.
#[derive(Clone, Copy, Debug, PartialEq, Eq, Structural)]
pub enum StoreErrorKind {
    Busy,
    Locked,
    Other,
}

/// Whether a store failure is worth retrying: only contention (busy or
/// locked) is.
pub fn is_retryable(kind: StoreErrorKind) -> (r: bool)
    ensures
        r == (kind == StoreErrorKind::Busy || kind == StoreErrorKind::Locked),
{
    match kind {
        StoreErrorKind::Busy => true,
        StoreErrorKind::Locked => true,
        StoreErrorKind::Other => false,
    }
}

/// The bounded exponential backoff schedule, in milliseconds, before retry
/// `attempt`.
pub open spec fn backoff_spec(attempt: int) -> int {
    if attempt == 0 {
        25
    } else if attempt == 1 {
        50
    } else if attempt == 2 {
        100
    } else if attempt == 3 {
        200
    } else {
        400
    }
}

/// The delay before re-running a contended store operation.
pub fn backoff_ms(attempt: usize) -> (r: u64)
    requires
        attempt < MAX_DB_RETRIES,
    ensures
        r == backoff_spec(attempt as int),
{
    if attempt == 0 {
        25
    } else if attempt == 1 {
        50
    } else if attempt == 2 {
        100
    } else if attempt == 3 {
        200
    } else {
        400
    }
}

/// Whether a failed store operation should be retried: only while attempts
/// remain and the failure is contention.
pub fn should_retry(attempt: usize, kind: StoreErrorKind) -> (r: bool)
    ensures
        r == (attempt < MAX_DB_RETRIES && (kind == StoreErrorKind::Busy || kind
            == StoreErrorKind::Locked)),
{
    attempt < MAX_DB_RETRIES && is_retryable(kind)
}

} // verus!
