use vstd::prelude::*;

use crate::clock::current_time_millis;
use crate::ids::generate_candidate_id;
use crate::payload::clone_payload;
use crate::request::{
    valid_request, validate_request, validation_outcome, EnqueueRequest, EnqueueRequestView,
    ValidationError,
};
use crate::status::{derive_status, derive_status_spec, JobStatus};
use crate::store::{
    has_id, has_key, key_index, store_wf, upsert_spec, JobRecord, JobRecordView, JobStore,
    StorageError,
};

verus! {

/// Scheduling hint stored when a submission names none.
pub const DEFAULT_PRIORITY: i16 = 5;

/// Retry budget ceiling fixed at enqueue time.
pub const DEFAULT_MAX_ATTEMPTS: u16 = 5;

/// Failure of the enqueue operation: the store failed the write. No other
/// error is introduced at this layer.
#[derive(Clone, Copy, Debug, PartialEq, Eq, Structural)]
pub enum EnqueueError {
    Db(StorageError),
}

/// The run time a submission resolves to: the requested time, or the
/// submission time when none was requested.
pub open spec fn resolve_run_at(req: EnqueueRequestView, now: i64) -> i64 {
    match req.run_at {
        Some(at) => at,
        None => now,
    }
}

/// The record a submission turns into under candidate identifier `id` at
/// submission time `now`: attempts start at zero and the status is derived
/// from the resolved run time.
pub open spec fn make_record_view(req: EnqueueRequestView, id: u128, now: i64) -> JobRecordView {
    JobRecordView {
        id,
        name: req.name,
        payload: req.payload,
        priority: match req.priority {
            Some(p) => p,
            None => DEFAULT_PRIORITY,
        },
        status: derive_status_spec(resolve_run_at(req, now), now),
        run_at: resolve_run_at(req, now),
        attempts: 0,
        max_attempts: DEFAULT_MAX_ATTEMPTS,
        idempotency_key: req.idempotency_key,
    }
}

/// The store contents and the authoritative identifier an enqueue yields.
pub open spec fn enqueue_spec(
    s: Seq<JobRecordView>,
    req: EnqueueRequestView,
    id: u128,
    now: i64,
) -> (Seq<JobRecordView>, Result<u128, EnqueueError>) {
    let written = upsert_spec(s, make_record_view(req, id, now));
    (
        written.0,
        match written.1 {
            Ok(job_id) => Ok(job_id),
            Err(e) => Err(EnqueueError::Db(e)),
        },
    )
}

/// The idempotent enqueue operation: turns a submission into a stored record
/// through one atomic conditional write and returns the identifier that now
/// authoritatively represents the submission. A submission whose idempotency
/// key is already live merges into the existing record and returns that
/// record's identifier; the candidate identifier is discarded.
pub fn enqueue_job(
    store: &mut JobStore,
    req: &EnqueueRequest,
    candidate_id: u128,
    now: i64,
) -> (result: Result<u128, EnqueueError>)
    requires
        store_wf(old(store)@),
    ensures
        store_wf(final(store)@),
        (final(store)@, result) == enqueue_spec(old(store)@, req@, candidate_id, now),
{
    let run_at = match req.run_at {
        Some(at) => at,
        None => now,
    };
    let priority = match req.priority {
        Some(p) => p,
        None => DEFAULT_PRIORITY,
    };
    let status = derive_status(run_at, now);
    let record = JobRecord {
        id: candidate_id,
        name: req.name.clone(),
        payload: clone_payload(&req.payload),
        priority,
        status,
        run_at,
        attempts: 0,
        max_attempts: DEFAULT_MAX_ATTEMPTS,
        idempotency_key: match &req.idempotency_key {
            Some(key) => Some(key.clone()),
            None => None,
        },
    };
    proof {
        assert(record@ == make_record_view(req@, candidate_id, now));
    }
    match store.upsert_by_idempotency_key(record) {
        Ok(job_id) => Ok(job_id),
        Err(e) => Err(EnqueueError::Db(e)),
    }
}

/// What a successful enqueue answers: the authoritative identifier and the
/// status the submission was stored under.
#[derive(Clone, Copy, Debug, PartialEq, Eq, Structural)]
pub struct EnqueueResponse {
    pub job_id: u128,
    pub status: JobStatus,
}

/// Failure of the submission path: a rejected submission (a client-side
/// fault) or a failed write (a server-side fault).
#[derive(Clone, Copy, Debug, PartialEq, Eq, Structural)]
pub enum ApiError {
    Validation(ValidationError),
    Storage(StorageError),
}

/// The whole outcome of the submission path under candidate identifier `id`
/// at submission time `now`: a rejected submission leaves the store unchanged
/// and names the field at fault; an accepted one writes through the idempotent
/// enqueue operation and answers the authoritative identifier together with
/// the status it was stored under.
pub open spec fn submission_outcome(
    s0: Seq<JobRecordView>,
    req: EnqueueRequestView,
    id: u128,
    now: i64,
    s1: Seq<JobRecordView>,
    result: Result<EnqueueResponse, ApiError>,
) -> bool {
    if !valid_request(req) {
        &&& s1 == s0
        &&& match validation_outcome(req) {
            Err(e) => result == Err::<EnqueueResponse, ApiError>(ApiError::Validation(e)),
            Ok(_) => false,
        }
    } else {
        &&& s1 == enqueue_spec(s0, req, id, now).0
        &&& match enqueue_spec(s0, req, id, now).1 {
            Ok(job_id) => result == Ok::<EnqueueResponse, ApiError>(
                EnqueueResponse {
                    job_id,
                    status: derive_status_spec(resolve_run_at(req, now), now),
                },
            ),
            Err(EnqueueError::Db(e)) => result == Err::<EnqueueResponse, ApiError>(
                ApiError::Storage(e),
            ),
        }
    }
}

/// The submission path behind the enqueue endpoint, deterministic in its
/// inputs: validates the submission, then writes it under candidate
/// identifier `candidate_id` at submission time `now`.
pub fn handle_submission(
    store: &mut JobStore,
    req: &EnqueueRequest,
    candidate_id: u128,
    now: i64,
) -> (result: Result<EnqueueResponse, ApiError>)
    requires
        store_wf(old(store)@),
    ensures
        store_wf(final(store)@),
        submission_outcome(old(store)@, req@, candidate_id, now, final(store)@, result),
{
    if let Err(e) = validate_request(req) {
        return Err(ApiError::Validation(e));
    }
    let run_at = match req.run_at {
        Some(at) => at,
        None => now,
    };
    match enqueue_job(store, req, candidate_id, now) {
        Ok(job_id) => {
            let status = derive_status(run_at, now);
            Ok(EnqueueResponse { job_id, status })
        },
        Err(EnqueueError::Db(e)) => Err(ApiError::Storage(e)),
    }
}

/// The enqueue entry point as the service runs it: draws a fresh candidate
/// identifier, reads the clock, and follows the submission path. The
/// identifier is random and the instant is the machine's, so the contract
/// states what holds whichever values came back.
pub fn enqueue_job_handler(store: &mut JobStore, req: &EnqueueRequest) -> (result: Result<
    EnqueueResponse,
    ApiError,
>)
    requires
        store_wf(old(store)@),
    ensures
        store_wf(final(store)@),
        exists|id: u128, now: i64|
            submission_outcome(old(store)@, req@, id, now, final(store)@, result),
        !valid_request(req@) ==> final(store)@ == old(store)@ && result is Err,
        req@.idempotency_key matches Some(key) ==> ((valid_request(req@) && has_key(
            old(store)@,
            key,
        )) ==> {
            &&& final(store)@.len() == old(store)@.len()
            &&& result matches Ok(resp) && resp.job_id == old(store)@[key_index(
                old(store)@,
                key,
            )].id
        }),
        valid_request(req@) && req@.idempotency_key is None ==> {
            ||| (result matches Ok(resp) && !has_id(old(store)@, resp.job_id)
                && final(store)@.len() == old(store)@.len() + 1)
            ||| (result matches Err(e) && e is Storage && final(store)@ == old(store)@)
        },
{
    let candidate_id = generate_candidate_id();
    let now = current_time_millis();
    let ghost s0 = store@;
    let result = handle_submission(store, req, candidate_id, now);
    proof {
        assert(submission_outcome(s0, req@, candidate_id, now, store@, result));
    }
    result
}

} // verus!
