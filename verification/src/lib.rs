//! Ingestion front-end of a background job-processing service.
//!
//! The library accepts validated job submissions, persists them in a job
//! store with at-most-one-effective-enqueue semantics under a caller-supplied
//! idempotency key, derives the initial lifecycle status of each job, builds
//! the best-effort wake-up notification for idle workers, and states the
//! execution contract a worker-side handler must honor.

pub mod clock;
pub mod context;
pub mod enqueue;
pub mod ids;
pub mod laws;
pub mod notify;
pub mod payload;
pub mod request;
pub mod status;
pub mod store;
