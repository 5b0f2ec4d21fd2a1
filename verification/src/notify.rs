use vstd::prelude::*;

use crate::enqueue::EnqueueResponse;
use crate::ids::{uuid_hyphenated, uuid_text_of};

verus! {

/// Why a best-effort publish did not go out. Observed in the counters, never
/// surfaced to the caller, never retried.
#[derive(Clone, Copy, Debug, PartialEq, Eq, Structural)]
pub enum NotificationError {
    ConnectionFailed,
    PublishFailed,
}

/// The well-known broadcast topic on which job availability is announced.
pub fn notification_topic() -> (topic: &'static str)
    ensures
        topic@ == "job:available"@,
{
    "job:available"
}

/// The wake-up message for a stored job: the plain text form of its
/// identifier. No payload, no delivery guarantee, no acknowledgement.
pub fn notification_message(job_id: u128) -> (message: String)
    ensures
        message@ == uuid_text_of(job_id),
        message@.len() == 36,
{
    uuid_hyphenated(job_id)
}

/// Counters the health/metrics surface renders.
pub struct EnqueueMetrics {
    /// Successful enqueue calls observed.
    pub enqueued: u64,
    /// Best-effort publishes that failed; observed here and nowhere else.
    pub publish_failures: u64,
}

/// A counter one step further along, stopping at its ceiling.
pub open spec fn saturating_increment(count: u64) -> u64 {
    if count == u64::MAX {
        count
    } else {
        (count + 1) as u64
    }
}

impl EnqueueMetrics {
    /// Counters at process start.
    pub fn new() -> (metrics: EnqueueMetrics)
        ensures
            metrics.enqueued == 0,
            metrics.publish_failures == 0,
    {
        EnqueueMetrics { enqueued: 0, publish_failures: 0 }
    }
}

/// Completes an accepted enqueue call after the best-effort publish: the
/// publish outcome is recorded in the counters and never changes the answer.
/// A lost notification can only delay pickup; it cannot fail the call.
pub fn complete_enqueue(
    response: EnqueueResponse,
    publish_result: &Result<(), NotificationError>,
    metrics: &mut EnqueueMetrics,
) -> (answered: EnqueueResponse)
    ensures
        answered == response,
        final(metrics).enqueued == saturating_increment(old(metrics).enqueued),
        final(metrics).publish_failures == if publish_result is Err {
            saturating_increment(old(metrics).publish_failures)
        } else {
            old(metrics).publish_failures
        },
{
    if metrics.enqueued < u64::MAX {
        metrics.enqueued = metrics.enqueued + 1;
    }
    if publish_result.is_err() {
        if metrics.publish_failures < u64::MAX {
            metrics.publish_failures = metrics.publish_failures + 1;
        }
    }
    response
}

} // verus!
