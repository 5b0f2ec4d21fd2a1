use vstd::prelude::*;

use crate::enqueue::{enqueue_spec, make_record_view, resolve_run_at, EnqueueError};
use crate::request::EnqueueRequestView;
use crate::status::{derive_status_spec, is_enqueue_status};
use crate::store::{
    has_id, has_key, key_index, lemma_key_match_index, lemma_upsert_preserves_wf, reschedule,
    store_wf, upsert_spec, JobRecordView,
};

verus! {

/// Number of live records carrying `key` as their idempotency key.
pub open spec fn count_with_key(s: Seq<JobRecordView>, key: Seq<char>) -> nat
    decreases s.len(),
{
    if s.len() == 0 {
        0
    } else {
        count_with_key(s.drop_last(), key) + if s.last().idempotency_key == Some(key) {
            1nat
        } else {
            0nat
        }
    }
}

proof fn lemma_count_zero(s: Seq<JobRecordView>, key: Seq<char>)
    requires
        forall|i: int| 0 <= i < s.len() ==> (#[trigger] s[i]).idempotency_key != Some(key),
    ensures
        count_with_key(s, key) == 0,
    decreases s.len(),
{
    if s.len() > 0 {
        let prefix = s.drop_last();
        assert(forall|i: int| 0 <= i < prefix.len() ==> #[trigger] prefix[i] == s[i]);
        lemma_count_zero(prefix, key);
    }
}

/// In a well-formed store a live key marks exactly one record.
pub proof fn lemma_wf_key_count(s: Seq<JobRecordView>, key: Seq<char>)
    requires
        store_wf(s),
        has_key(s, key),
    ensures
        count_with_key(s, key) == 1,
    decreases s.len(),
{
    let i = key_index(s, key);
    assert(0 <= i < s.len() && s[i].idempotency_key == Some(key));
    let prefix = s.drop_last();
    assert(forall|j: int| 0 <= j < prefix.len() ==> #[trigger] prefix[j] == s[j]);
    if i == s.len() - 1 {
        assert(forall|j: int|
            0 <= j < prefix.len() ==> (#[trigger] prefix[j]).idempotency_key != Some(key));
        lemma_count_zero(prefix, key);
    } else {
        assert(s.last().idempotency_key != Some(key));
        assert(store_wf(prefix));
        assert(prefix[i].idempotency_key == Some(key));
        assert(has_key(prefix, key));
        lemma_wf_key_count(prefix, key);
    }
}

/// Any enqueue under a live key merges instead of inserting: the store keeps
/// its size, the record keeps its place and identity, and the call answers
/// the existing identifier — whatever candidate identifier, run time or
/// submission instant comes with it. Applied once per resubmission, this
/// carries idempotency to any number of repetitions.
pub proof fn lemma_enqueue_into_live_key(
    s: Seq<JobRecordView>,
    req: EnqueueRequestView,
    id: u128,
    now: i64,
    key: Seq<char>,
)
    requires
        store_wf(s),
        req.idempotency_key == Some(key),
        has_key(s, key),
    ensures
        ({
            let s1 = enqueue_spec(s, req, id, now).0;
            let r1 = enqueue_spec(s, req, id, now).1;
            let at = key_index(s, key);
            &&& r1 == Ok::<u128, EnqueueError>(s[at].id)
            &&& s1.len() == s.len()
            &&& has_key(s1, key)
            &&& key_index(s1, key) == at
            &&& s1[at].id == s[at].id
        }),
{
    let rec = make_record_view(req, id, now);
    let s1 = enqueue_spec(s, req, id, now).0;
    let at = key_index(s, key);
    assert(0 <= at < s.len() && s[at].idempotency_key == Some(key));
    assert(s1 == s.update(at, reschedule(s[at], rec.status, rec.run_at)));
    lemma_upsert_preserves_wf(s, rec);
    assert(s1[at].idempotency_key == Some(key));
    lemma_key_match_index(s1, key, at);
}

/// Idempotency of the enqueue operation: once a submission under a key has
/// been accepted, re-enqueueing under the same key — whatever candidate
/// identifier, run time or submission instant comes with it — answers with
/// the same identifier, adds no record, and the store holds exactly one
/// record under that key throughout.
pub proof fn lemma_enqueue_idempotent(
    s: Seq<JobRecordView>,
    req1: EnqueueRequestView,
    req2: EnqueueRequestView,
    id1: u128,
    now1: i64,
    id2: u128,
    now2: i64,
    key: Seq<char>,
)
    requires
        store_wf(s),
        req1.idempotency_key == Some(key),
        req2.idempotency_key == Some(key),
        enqueue_spec(s, req1, id1, now1).1 is Ok,
    ensures
        ({
            let s1 = enqueue_spec(s, req1, id1, now1).0;
            let r1 = enqueue_spec(s, req1, id1, now1).1;
            let s2 = enqueue_spec(s1, req2, id2, now2).0;
            let r2 = enqueue_spec(s1, req2, id2, now2).1;
            &&& r2 == r1
            &&& s2.len() == s1.len()
            &&& count_with_key(s1, key) == 1
            &&& count_with_key(s2, key) == 1
        }),
{
    let rec1 = make_record_view(req1, id1, now1);
    let rec2 = make_record_view(req2, id2, now2);
    let s1 = enqueue_spec(s, req1, id1, now1).0;
    let s2 = enqueue_spec(s1, req2, id2, now2).0;
    lemma_upsert_preserves_wf(s, rec1);
    let hit: int = if has_key(s, key) {
        key_index(s, key)
    } else {
        s.len() as int
    };
    if has_key(s, key) {
        assert(0 <= hit < s.len() && s[hit].idempotency_key == Some(key));
        assert(s1 == s.update(hit, reschedule(s[hit], rec1.status, rec1.run_at)));
    } else {
        assert(s1 == s.push(rec1));
    }
    assert(s1[hit].idempotency_key == Some(key));
    lemma_key_match_index(s1, key, hit);
    lemma_upsert_preserves_wf(s1, rec2);
    assert(s2 == s1.update(hit, reschedule(s1[hit], rec2.status, rec2.run_at)));
    assert(s2[hit].idempotency_key == Some(key));
    lemma_key_match_index(s2, key, hit);
    lemma_wf_key_count(s1, key);
    lemma_wf_key_count(s2, key);
}

/// No-key uniqueness: submissions that carry no idempotency key each create a
/// record of their own, under an identifier of their own.
pub proof fn lemma_enqueue_no_key_distinct(
    s: Seq<JobRecordView>,
    req1: EnqueueRequestView,
    req2: EnqueueRequestView,
    id1: u128,
    now1: i64,
    id2: u128,
    now2: i64,
)
    requires
        store_wf(s),
        req1.idempotency_key is None,
        req2.idempotency_key is None,
        enqueue_spec(s, req1, id1, now1).1 is Ok,
        enqueue_spec(enqueue_spec(s, req1, id1, now1).0, req2, id2, now2).1 is Ok,
    ensures
        ({
            let s1 = enqueue_spec(s, req1, id1, now1).0;
            let r1 = enqueue_spec(s, req1, id1, now1).1;
            let s2 = enqueue_spec(s1, req2, id2, now2).0;
            let r2 = enqueue_spec(s1, req2, id2, now2).1;
            &&& r1 == Ok::<u128, EnqueueError>(id1)
            &&& r2 == Ok::<u128, EnqueueError>(id2)
            &&& id1 != id2
            &&& s2.len() == s.len() + 2
        }),
{
    let rec1 = make_record_view(req1, id1, now1);
    let s1 = enqueue_spec(s, req1, id1, now1).0;
    assert(!has_id(s, id1));
    assert(s1 == s.push(rec1));
    assert(s1[s.len() as int].id == id1);
    assert(has_id(s1, id1));
    assert(!has_id(s1, id2));
}

/// Rescheduling: a resubmission under a live key updates that one record's
/// `run_at` and `status` to the new submission's values, keeps its identity
/// and every other field, and answers the same identifier as before.
pub proof fn lemma_enqueue_reschedules(
    s: Seq<JobRecordView>,
    req1: EnqueueRequestView,
    req2: EnqueueRequestView,
    id1: u128,
    now1: i64,
    id2: u128,
    now2: i64,
    key: Seq<char>,
)
    requires
        store_wf(s),
        req1.idempotency_key == Some(key),
        req2.idempotency_key == Some(key),
        enqueue_spec(s, req1, id1, now1).1 is Ok,
    ensures
        ({
            let s1 = enqueue_spec(s, req1, id1, now1).0;
            let r1 = enqueue_spec(s, req1, id1, now1).1;
            let s2 = enqueue_spec(s1, req2, id2, now2).0;
            let r2 = enqueue_spec(s1, req2, id2, now2).1;
            let at = key_index(s2, key);
            &&& r2 == r1
            &&& has_key(s2, key)
            &&& 0 <= at < s2.len()
            &&& s2.len() == s1.len()
            &&& s2[at].id == r1->Ok_0
            &&& s2[at].run_at == resolve_run_at(req2, now2)
            &&& s2[at].status == derive_status_spec(resolve_run_at(req2, now2), now2)
            &&& s2[at].idempotency_key == Some(key)
            &&& s2[at].name == s1[at].name
            &&& s2[at].payload == s1[at].payload
            &&& s2[at].priority == s1[at].priority
            &&& s2[at].attempts == s1[at].attempts
            &&& s2[at].max_attempts == s1[at].max_attempts
        }),
{
    let rec1 = make_record_view(req1, id1, now1);
    let rec2 = make_record_view(req2, id2, now2);
    let s1 = enqueue_spec(s, req1, id1, now1).0;
    let s2 = enqueue_spec(s1, req2, id2, now2).0;
    lemma_upsert_preserves_wf(s, rec1);
    let hit: int = if has_key(s, key) {
        key_index(s, key)
    } else {
        s.len() as int
    };
    if has_key(s, key) {
        assert(0 <= hit < s.len() && s[hit].idempotency_key == Some(key));
        assert(s1 == s.update(hit, reschedule(s[hit], rec1.status, rec1.run_at)));
    } else {
        assert(s1 == s.push(rec1));
    }
    assert(s1[hit].idempotency_key == Some(key));
    lemma_key_match_index(s1, key, hit);
    assert(s2 == s1.update(hit, reschedule(s1[hit], rec2.status, rec2.run_at)));
    lemma_upsert_preserves_wf(s1, rec2);
    assert(s2[hit].idempotency_key == Some(key));
    lemma_key_match_index(s2, key, hit);
}

/// The enqueue path only ever writes the two entry states: every record it
/// touches leaves with status `Pending` or `Scheduled`, and every other
/// record is exactly as it was.
pub proof fn lemma_enqueue_writes_enqueue_statuses(
    s: Seq<JobRecordView>,
    req: EnqueueRequestView,
    id: u128,
    now: i64,
)
    ensures
        ({
            let s1 = enqueue_spec(s, req, id, now).0;
            forall|j: int|
                0 <= j < s1.len() ==> (0 <= j < s.len() && (#[trigger] s1[j]) == s[j])
                    || is_enqueue_status(s1[j].status)
        }),
{
    let rec = make_record_view(req, id, now);
    let s1 = enqueue_spec(s, req, id, now).0;
    assert(is_enqueue_status(rec.status));
    assert((s1, upsert_spec(s, rec).1) == upsert_spec(s, rec));
    match rec.idempotency_key {
        Some(k) => {
            if has_key(s, k) {
                let i = key_index(s, k);
                assert(0 <= i < s.len() && s[i].idempotency_key == Some(k));
                assert(s1 == s.update(i, reschedule(s[i], rec.status, rec.run_at)));
                assert(is_enqueue_status(s1[i].status));
            }
        },
        None => {},
    }
}

} // verus!
