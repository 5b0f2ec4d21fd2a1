use vstd::prelude::*;

use crate::status::JobStatus;

verus! {

/// One row of the durable job store.
pub struct JobRecord {
    /// Globally unique identifier, assigned once at creation, never mutated.
    pub id: u128,
    /// Job type name.
    pub name: String,
    /// Opaque document handed through to the executor unmodified.
    pub payload: serde_json::Value,
    /// Scheduling hint; stored, never interpreted here.
    pub priority: i16,
    /// Lifecycle state; the enqueue path only ever writes `Pending` or `Scheduled`.
    pub status: JobStatus,
    /// Time after which the job is eligible to run, in milliseconds since the Unix epoch.
    pub run_at: i64,
    /// Execution attempts so far; starts at 0, incremented only by the worker.
    pub attempts: u16,
    /// Retry budget ceiling, fixed at enqueue time.
    pub max_attempts: u16,
    /// Deduplication key; unique across live records when present.
    pub idempotency_key: Option<String>,
}

/// Spec-level image of a record: strings as character sequences.
pub struct JobRecordView {
    pub id: u128,
    pub name: Seq<char>,
    pub payload: serde_json::Value,
    pub priority: i16,
    pub status: JobStatus,
    pub run_at: i64,
    pub attempts: u16,
    pub max_attempts: u16,
    pub idempotency_key: Option<Seq<char>>,
}

impl View for JobRecord {
    type V = JobRecordView;

    open spec fn view(&self) -> JobRecordView {
        JobRecordView {
            id: self.id,
            name: self.name@,
            payload: self.payload,
            priority: self.priority,
            status: self.status,
            run_at: self.run_at,
            attempts: self.attempts,
            max_attempts: self.max_attempts,
            idempotency_key: match self.idempotency_key {
                Some(key) => Some(key@),
                None => None,
            },
        }
    }
}

/// The store rejected the write for a reason other than the idempotency-key
/// conflict the operation resolves itself. For this in-memory surface that is
/// exactly one condition: the candidate identifier is already taken.
#[derive(Clone, Copy, Debug, PartialEq, Eq, Structural)]
pub enum StorageError {
    DuplicateId,
}

/// Some record carries `key` as its idempotency key.
pub open spec fn has_key(s: Seq<JobRecordView>, key: Seq<char>) -> bool {
    exists|i: int| 0 <= i < s.len() && (#[trigger] s[i]).idempotency_key == Some(key)
}

/// The index of the record carrying `key`; meaningful only when `has_key`
/// holds, and then unique under `store_wf`.
pub open spec fn key_index(s: Seq<JobRecordView>, key: Seq<char>) -> int {
    choose|i: int| 0 <= i < s.len() && (#[trigger] s[i]).idempotency_key == Some(key)
}

/// Some record carries `id` as its identifier.
pub open spec fn has_id(s: Seq<JobRecordView>, id: u128) -> bool {
    exists|i: int| 0 <= i < s.len() && (#[trigger] s[i]).id == id
}

/// Well-formedness of the store contents: identifiers are unique, and at most
/// one live record exists per idempotency key.
pub open spec fn store_wf(s: Seq<JobRecordView>) -> bool {
    &&& forall|i: int, j: int|
        0 <= i < s.len() && 0 <= j < s.len() && i != j ==> (#[trigger] s[i]).id != (
        #[trigger] s[j]).id
    &&& forall|i: int, j: int|
        0 <= i < s.len() && 0 <= j < s.len() && i != j && (#[trigger] s[i]).idempotency_key
            is Some ==> s[i].idempotency_key != (#[trigger] s[j]).idempotency_key
}

/// A dedup hit merges the resubmission into the existing row: only `status`
/// and `run_at` change; identity and every other field stay.
pub open spec fn reschedule(existing: JobRecordView, status: JobStatus, run_at: i64) -> JobRecordView {
    JobRecordView { status, run_at, ..existing }
}

/// Insertion of a row under a fresh identifier; a taken identifier is the
/// store's remaining constraint violation and fails the write whole.
pub open spec fn insert_fresh_spec(s: Seq<JobRecordView>, rec: JobRecordView) -> (Seq<
    JobRecordView,
>, Result<u128, StorageError>) {
    if !has_id(s, rec.id) {
        (s.push(rec), Ok(rec.id))
    } else {
        (s, Err(StorageError::DuplicateId))
    }
}

/// The atomic conditional write: merge into the row holding the submission's
/// idempotency key when one exists (returning that row's identifier), else
/// insert a new row under the candidate identifier.
pub open spec fn upsert_spec(s: Seq<JobRecordView>, rec: JobRecordView) -> (Seq<
    JobRecordView,
>, Result<u128, StorageError>) {
    match rec.idempotency_key {
        Some(key) => if has_key(s, key) {
            let i = key_index(s, key);
            (s.update(i, reschedule(s[i], rec.status, rec.run_at)), Ok(s[i].id))
        } else {
            insert_fresh_spec(s, rec)
        },
        None => insert_fresh_spec(s, rec),
    }
}

/// In a well-formed store, a record seen to carry `key` is the record that
/// `key_index` picks.
pub proof fn lemma_key_match_index(s: Seq<JobRecordView>, key: Seq<char>, i: int)
    requires
        store_wf(s),
        0 <= i < s.len(),
        s[i].idempotency_key == Some(key),
    ensures
        has_key(s, key),
        key_index(s, key) == i,
{
    assert(has_key(s, key));
    let j = key_index(s, key);
    assert(0 <= j < s.len() && s[j].idempotency_key == Some(key));
    if i != j {
        assert(s[i].idempotency_key != s[j].idempotency_key);
    }
}

/// The atomic write preserves store well-formedness.
pub proof fn lemma_upsert_preserves_wf(s: Seq<JobRecordView>, rec: JobRecordView)
    requires
        store_wf(s),
    ensures
        store_wf(upsert_spec(s, rec).0),
{
    let s1 = upsert_spec(s, rec).0;
    match rec.idempotency_key {
        Some(key) => {
            if has_key(s, key) {
                let i = key_index(s, key);
                assert(0 <= i < s.len() && s[i].idempotency_key == Some(key));
                assert(forall|j: int|
                    0 <= j < s1.len() ==> (#[trigger] s1[j]).id == s[j].id
                        && s1[j].idempotency_key == s[j].idempotency_key);
            } else {
                lemma_insert_fresh_preserves_wf(s, rec);
            }
        },
        None => {
            lemma_insert_fresh_preserves_wf(s, rec);
        },
    }
}

proof fn lemma_insert_fresh_preserves_wf(s: Seq<JobRecordView>, rec: JobRecordView)
    requires
        store_wf(s),
        rec.idempotency_key matches Some(key) ==> !has_key(s, key),
    ensures
        store_wf(insert_fresh_spec(s, rec).0),
{
    let s1 = insert_fresh_spec(s, rec).0;
    if !has_id(s, rec.id) {
        assert(s1 == s.push(rec));
        assert(forall|j: int| 0 <= j < s.len() ==> (#[trigger] s1[j]) == s[j]);
        assert(s1[s.len() as int] == rec);
        assert(forall|j: int| 0 <= j < s.len() ==> (#[trigger] s[j]).id != rec.id);
        assert(forall|j: int|
            0 <= j < s.len() ==> (#[trigger] s[j]).idempotency_key != rec.idempotency_key
                || s[j].idempotency_key is None);
    }
}

/// The durable job store: the single source of truth for job existence and
/// status, with a uniqueness constraint on the idempotency key.
pub struct JobStore {
    records: Vec<JobRecord>,
}

impl View for JobStore {
    type V = Seq<JobRecordView>;

    closed spec fn view(&self) -> Seq<JobRecordView> {
        Seq::new(self.records@.len(), |i: int| self.records@[i]@)
    }
}

impl JobStore {
    /// An empty store.
    pub fn new() -> (store: JobStore)
        ensures
            store@ == Seq::<JobRecordView>::empty(),
            store_wf(store@),
    {
        let store = JobStore { records: Vec::new() };
        proof {
            assert(store@ =~= Seq::<JobRecordView>::empty());
        }
        store
    }

    /// Number of live records.
    pub fn len(&self) -> (n: usize)
        ensures
            n == self@.len(),
    {
        self.records.len()
    }

    /// The record at position `i`, in insertion order.
    pub fn record_at(&self, i: usize) -> (record: &JobRecord)
        requires
            i < self@.len(),
        ensures
            record@ == self@[i as int],
    {
        &self.records[i]
    }

    /// The atomic insert-or-merge write of the idempotent enqueue protocol.
    ///
    /// If a record already carries the submission's idempotency key, that
    /// record's `status` and `run_at` are updated in place and its identifier
    /// is returned; the candidate identifier in `record.id` is discarded.
    /// Otherwise the record is inserted whole, unless its identifier is
    /// already taken, in which case nothing changes and the write fails.
    pub fn upsert_by_idempotency_key(&mut self, record: JobRecord) -> (result: Result<
        u128,
        StorageError,
    >)
        requires
            store_wf(old(self)@),
        ensures
            store_wf(final(self)@),
            (final(self)@, result) == upsert_spec(old(self)@, record@),
    {
        proof {
            lemma_upsert_preserves_wf(self@, record@);
        }
        let ghost s0 = self@;
        assert(s0.len() == self.records@.len());
        if record.idempotency_key.is_some() {
            let n = self.records.len();
            let mut i: usize = 0;
            while i < n
                invariant
                    s0 == old(self)@,
                    self@ == s0,
                    self.records@.len() == s0.len(),
                    n == s0.len(),
                    i <= n,
                    store_wf(s0),
                    record@.idempotency_key is Some,
                    forall|j: int|
                        0 <= j < i ==> (#[trigger] s0[j]).idempotency_key
                            != record@.idempotency_key,
                decreases n - i,
            {
                let is_match = match (&self.records[i].idempotency_key, &record.idempotency_key) {
                    (Some(existing), Some(submitted)) => *existing == *submitted,
                    _ => false,
                };
                if is_match {
                    let ghost key = record@.idempotency_key->0;
                    proof {
                        assert(s0[i as int] == self.records@[i as int]@);
                        assert(s0[i as int].idempotency_key == Some(key));
                        lemma_key_match_index(s0, key, i as int);
                        lemma_upsert_preserves_wf(s0, record@);
                    }
                    let existing_id = self.records[i].id;
                    let element = &mut self.records[i];
                    element.status = record.status;
                    element.run_at = record.run_at;
                    proof {
                        assert(self@ =~= s0.update(
                            i as int,
                            reschedule(s0[i as int], record@.status, record@.run_at),
                        ));
                        assert((self@, Ok::<u128, StorageError>(existing_id)) == upsert_spec(
                            s0,
                            record@,
                        ));
                    }
                    return Ok(existing_id);
                }
                i += 1;
            }
            proof {
                assert(!has_key(s0, record@.idempotency_key->0));
            }
        }
        let n = self.records.len();
        let mut i: usize = 0;
        while i < n
            invariant
                s0 == old(self)@,
                self@ == s0,
                self.records@.len() == s0.len(),
                n == s0.len(),
                i <= n,
                store_wf(s0),
                record@.idempotency_key matches Some(key) ==> !has_key(s0, key),
                forall|j: int| 0 <= j < i ==> (#[trigger] s0[j]).id != record@.id,
            decreases n - i,
        {
            if self.records[i].id == record.id {
                proof {
                    assert(s0[i as int] == self.records@[i as int]@);
                    assert(s0[i as int].id == record@.id);
                    assert(has_id(s0, record@.id));
                }
                return Err(StorageError::DuplicateId);
            }
            i += 1;
        }
        proof {
            assert(!has_id(s0, record@.id));
        }
        let new_id = record.id;
        let ghost rec_view = record@;
        self.records.push(record);
        proof {
            assert(self@ =~= s0.push(rec_view));
        }
        Ok(new_id)
    }
}

} // verus!
