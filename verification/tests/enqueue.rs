use jobqueue::enqueue::{
    enqueue_job, handle_submission, ApiError, EnqueueError, EnqueueResponse,
};
use jobqueue::request::{validate_request, EnqueueRequest, ValidationError};
use jobqueue::status::JobStatus;
use jobqueue::store::{JobStore, StorageError};

fn sample_payload() -> serde_json::Value {
    let mut doc = serde_json::Map::new();
    doc.insert(
        "to".to_string(),
        serde_json::Value::String("user@example.com".to_string()),
    );
    serde_json::Value::Object(doc)
}

fn request(
    name: &str,
    run_at: Option<i64>,
    priority: Option<i16>,
    idempotency_key: Option<&str>,
) -> EnqueueRequest {
    EnqueueRequest {
        name: name.to_string(),
        payload: sample_payload(),
        run_at,
        priority,
        idempotency_key: idempotency_key.map(|k| k.to_string()),
    }
}

#[test]
fn submit_with_key_then_resubmit_returns_same_id_and_pending() {
    let mut store = JobStore::new();
    let req = request("send_email", None, None, Some("order-42"));

    let first = handle_submission(&mut store, &req, 7, 1_000).unwrap();
    assert_eq!(first.job_id, 7);
    assert_eq!(first.status, JobStatus::Pending);
    assert_eq!(store.len(), 1);

    let second = handle_submission(&mut store, &req, 9, 2_000).unwrap();
    assert_eq!(second.job_id, 7);
    assert_eq!(second.status, JobStatus::Pending);
    assert_eq!(store.len(), 1);
}

#[test]
fn future_run_at_is_scheduled() {
    let mut store = JobStore::new();
    let now: i64 = 1_700_000_000_000;
    let req = request("cleanup", Some(now + 3_600_000), None, None);

    let resp = handle_submission(&mut store, &req, 11, now).unwrap();
    assert_eq!(resp.status, JobStatus::Scheduled);
    assert_eq!(resp.job_id, 11);
}

#[test]
fn resubmission_with_new_run_at_reschedules_and_keeps_id() {
    let mut store = JobStore::new();
    let now: i64 = 1_700_000_000_000;
    let future = request("x", Some(now + 60_000), None, Some("k1"));
    let immediate = request("x", Some(now), None, Some("k1"));

    let first = handle_submission(&mut store, &future, 21, now).unwrap();
    assert_eq!(first.status, JobStatus::Scheduled);

    let second = handle_submission(&mut store, &immediate, 22, now).unwrap();
    assert_eq!(second.job_id, first.job_id);
    assert_eq!(second.status, JobStatus::Pending);
    assert_eq!(store.len(), 1);

    let record = store.record_at(0);
    assert_eq!(record.id, 21);
    assert_eq!(record.run_at, now);
    assert_eq!(record.status, JobStatus::Pending);
}

#[test]
fn reschedule_keeps_every_other_field() {
    let mut store = JobStore::new();
    let first = request("report", Some(500), Some(2), Some("weekly"));
    let second = request("report-renamed", Some(900), Some(9), Some("weekly"));

    handle_submission(&mut store, &first, 31, 400).unwrap();
    handle_submission(&mut store, &second, 32, 400).unwrap();

    let record = store.record_at(0);
    assert_eq!(record.id, 31);
    assert_eq!(record.name, "report");
    assert_eq!(record.priority, 2);
    assert_eq!(record.attempts, 0);
    assert_eq!(record.max_attempts, 5);
    assert_eq!(record.idempotency_key.as_deref(), Some("weekly"));
    assert_eq!(record.run_at, 900);
    assert_eq!(record.status, JobStatus::Scheduled);
}

#[test]
fn submissions_without_key_each_create_a_record() {
    let mut store = JobStore::new();
    let req = request("import", None, None, None);

    let first = handle_submission(&mut store, &req, 41, 100).unwrap();
    let second = handle_submission(&mut store, &req, 42, 100).unwrap();
    assert_ne!(first.job_id, second.job_id);
    assert_eq!(store.len(), 2);
}

#[test]
fn taken_candidate_id_fails_the_write_and_leaves_no_record() {
    let mut store = JobStore::new();
    let req = request("import", None, None, None);

    assert_eq!(enqueue_job(&mut store, &req, 51, 100), Ok(51));
    assert_eq!(
        enqueue_job(&mut store, &req, 51, 200),
        Err(EnqueueError::Db(StorageError::DuplicateId))
    );
    assert_eq!(store.len(), 1);
}

#[test]
fn stored_record_carries_defaults_and_payload_unchanged() {
    let mut store = JobStore::new();
    let req = request("send_email", None, None, None);

    handle_submission(&mut store, &req, 61, 12_345).unwrap();
    let record = store.record_at(0);
    assert_eq!(record.priority, 5);
    assert_eq!(record.max_attempts, 5);
    assert_eq!(record.attempts, 0);
    assert_eq!(record.run_at, 12_345);
    assert_eq!(record.payload, sample_payload());
    assert_eq!(record.idempotency_key, None);
}

#[test]
fn empty_name_is_rejected_before_the_store() {
    let mut store = JobStore::new();
    let req = request("", None, None, None);

    assert_eq!(validate_request(&req), Err(ValidationError::NameLength));
    let result = handle_submission(&mut store, &req, 71, 100);
    assert_eq!(result, Err(ApiError::Validation(ValidationError::NameLength)));
    assert_eq!(store.len(), 0);
}

#[test]
fn name_and_key_length_bounds() {
    let max_name = "n".repeat(100);
    let long_name = "n".repeat(101);
    let max_key = "k".repeat(255);
    let long_key = "k".repeat(256);

    assert_eq!(validate_request(&request(&max_name, None, None, None)), Ok(()));
    assert_eq!(
        validate_request(&request(&long_name, None, None, None)),
        Err(ValidationError::NameLength)
    );
    assert_eq!(
        validate_request(&request("ok", None, None, Some(&max_key))),
        Ok(())
    );
    assert_eq!(
        validate_request(&request("ok", None, None, Some(&long_key))),
        Err(ValidationError::IdempotencyKeyLength)
    );
    assert_eq!(
        validate_request(&request("ok", None, None, Some(""))),
        Err(ValidationError::IdempotencyKeyLength)
    );
}

#[test]
fn handler_draws_identifier_and_clock_itself() {
    let mut store = JobStore::new();
    let req = request("send_email", None, None, Some("order-7"));

    let first = jobqueue::enqueue::enqueue_job_handler(&mut store, &req).unwrap();
    assert_eq!(first.status, JobStatus::Pending);
    assert_eq!(store.len(), 1);

    let second = jobqueue::enqueue::enqueue_job_handler(&mut store, &req).unwrap();
    assert_eq!(second.job_id, first.job_id);
    assert_eq!(store.len(), 1);

    let no_key = request("send_email", None, None, None);
    let third = jobqueue::enqueue::enqueue_job_handler(&mut store, &no_key).unwrap();
    let fourth = jobqueue::enqueue::enqueue_job_handler(&mut store, &no_key).unwrap();
    assert_ne!(third.job_id, fourth.job_id);
    assert_eq!(store.len(), 3);
}

#[test]
fn responses_report_the_stored_status() {
    let mut store = JobStore::new();
    let now: i64 = 50_000;
    let past = request("tick", Some(now - 1), None, None);
    let boundary = request("tick", Some(now), None, None);
    let future = request("tick", Some(now + 1), None, None);

    let a = handle_submission(&mut store, &past, 81, now).unwrap();
    let b = handle_submission(&mut store, &boundary, 82, now).unwrap();
    let c = handle_submission(&mut store, &future, 83, now).unwrap();
    assert_eq!(a, EnqueueResponse { job_id: 81, status: JobStatus::Pending });
    assert_eq!(b, EnqueueResponse { job_id: 82, status: JobStatus::Pending });
    assert_eq!(c, EnqueueResponse { job_id: 83, status: JobStatus::Scheduled });
}
