use vstd::prelude::*;

verus! {

/// Lifecycle state of a job record.
///
/// The enqueue path only ever assigns `Pending` or `Scheduled`; the later
/// states belong to the worker that claims and runs the job.
#[derive(Clone, Copy, Debug, PartialEq, Eq, Structural)]
pub enum JobStatus {
    Pending,
    Scheduled,
    Running,
    Completed,
    Failed,
}

/// The status the enqueue path assigns: `Scheduled` when the requested run
/// time lies strictly after `now`, `Pending` otherwise.
pub open spec fn derive_status_spec(run_at: i64, now: i64) -> JobStatus {
    if run_at > now {
        JobStatus::Scheduled
    } else {
        JobStatus::Pending
    }
}

/// Maps submission timing to the initial lifecycle state.
pub fn derive_status(run_at: i64, now: i64) -> (status: JobStatus)
    ensures
        status == derive_status_spec(run_at, now),
{
    if run_at > now {
        JobStatus::Scheduled
    } else {
        JobStatus::Pending
    }
}

/// A status the enqueue path is allowed to write.
pub open spec fn is_enqueue_status(status: JobStatus) -> bool {
    status is Pending || status is Scheduled
}

/// Every status the derivation rule produces is one the enqueue path may
/// assign: never `Running`, `Completed` or `Failed`.
pub proof fn lemma_derived_status_is_enqueue_status(run_at: i64, now: i64)
    ensures
        is_enqueue_status(derive_status_spec(run_at, now)),
{
}

/// The job lifecycle state machine. Forward edges only, no state skipped,
/// with the single backward edge `Failed -> Pending` while retry budget
/// remains (`attempts < max_attempts`).
pub open spec fn transition_allowed(
    from: JobStatus,
    to: JobStatus,
    attempts: u16,
    max_attempts: u16,
) -> bool {
    ||| (from is Scheduled && to is Pending)
    ||| (from is Pending && to is Running)
    ||| (from is Running && (to is Completed || to is Failed))
    ||| (from is Failed && to is Pending && attempts < max_attempts)
}

/// Decides whether a job may move from `from` to `to` given its attempt
/// bookkeeping.
pub fn is_transition_allowed(
    from: JobStatus,
    to: JobStatus,
    attempts: u16,
    max_attempts: u16,
) -> (allowed: bool)
    ensures
        allowed == transition_allowed(from, to, attempts, max_attempts),
{
    match (from, to) {
        (JobStatus::Scheduled, JobStatus::Pending) => true,
        (JobStatus::Pending, JobStatus::Running) => true,
        (JobStatus::Running, JobStatus::Completed) => true,
        (JobStatus::Running, JobStatus::Failed) => true,
        (JobStatus::Failed, JobStatus::Pending) => attempts < max_attempts,
        _ => false,
    }
}

} // verus!
