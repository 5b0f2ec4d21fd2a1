use jobqueue::context::{settle_attempt, Job, JobContext};
use jobqueue::enqueue::EnqueueResponse;
use jobqueue::notify::{
    complete_enqueue, notification_message, notification_topic, EnqueueMetrics, NotificationError,
};
use jobqueue::status::{derive_status, is_transition_allowed, JobStatus};

#[test]
fn status_derivation_rule() {
    assert_eq!(derive_status(999, 1000), JobStatus::Pending);
    assert_eq!(derive_status(1000, 1000), JobStatus::Pending);
    assert_eq!(derive_status(1001, 1000), JobStatus::Scheduled);
    assert_eq!(derive_status(i64::MIN, 0), JobStatus::Pending);
    assert_eq!(derive_status(i64::MAX, 0), JobStatus::Scheduled);
}

#[test]
fn state_machine_edges() {
    assert!(is_transition_allowed(JobStatus::Scheduled, JobStatus::Pending, 0, 5));
    assert!(is_transition_allowed(JobStatus::Pending, JobStatus::Running, 0, 5));
    assert!(is_transition_allowed(JobStatus::Running, JobStatus::Completed, 1, 5));
    assert!(is_transition_allowed(JobStatus::Running, JobStatus::Failed, 1, 5));
    assert!(is_transition_allowed(JobStatus::Failed, JobStatus::Pending, 4, 5));
    // no retry once the budget is exhausted, no skipped or backward edges
    assert!(!is_transition_allowed(JobStatus::Failed, JobStatus::Pending, 5, 5));
    assert!(!is_transition_allowed(JobStatus::Scheduled, JobStatus::Running, 0, 5));
    assert!(!is_transition_allowed(JobStatus::Pending, JobStatus::Completed, 0, 5));
    assert!(!is_transition_allowed(JobStatus::Completed, JobStatus::Pending, 0, 5));
    assert!(!is_transition_allowed(JobStatus::Running, JobStatus::Pending, 0, 5));
}

#[test]
fn settling_an_attempt_follows_the_retry_rule() {
    assert_eq!(settle_attempt(0, 5, true), (JobStatus::Completed, 1));
    assert_eq!(settle_attempt(0, 5, false), (JobStatus::Pending, 1));
    assert_eq!(settle_attempt(3, 5, false), (JobStatus::Pending, 4));
    assert_eq!(settle_attempt(4, 5, false), (JobStatus::Failed, 5));
    assert_eq!(settle_attempt(4, 5, true), (JobStatus::Completed, 5));
}

#[test]
fn notification_is_the_identifier_text_on_the_known_topic() {
    assert_eq!(notification_topic(), "job:available");
    assert_eq!(
        notification_message(0),
        "00000000-0000-0000-0000-000000000000"
    );
    let message = notification_message(0x0102_0304_0506_0708_090a_0b0c_0d0e_0f10);
    assert_eq!(message, "01020304-0506-0708-090a-0b0c0d0e0f10");
    assert_eq!(message.chars().count(), 36);
}

#[test]
fn unreachable_notifier_never_changes_the_answer() {
    let mut metrics = EnqueueMetrics::new();
    let response = EnqueueResponse { job_id: 7, status: JobStatus::Pending };

    let ok = complete_enqueue(response, &Ok(()), &mut metrics);
    assert_eq!(ok, response);
    let after_connect_failure = complete_enqueue(
        response,
        &Err(NotificationError::ConnectionFailed),
        &mut metrics,
    );
    assert_eq!(after_connect_failure, response);
    let after_publish_failure = complete_enqueue(
        response,
        &Err(NotificationError::PublishFailed),
        &mut metrics,
    );
    assert_eq!(after_publish_failure, response);

    assert_eq!(metrics.enqueued, 3);
    assert_eq!(metrics.publish_failures, 2);
}

#[derive(Debug, PartialEq)]
struct Cancelled;

struct SendEmail;

impl Job for SendEmail {
    type Output = u32;
    type Error = Cancelled;

    fn name(&self) -> &'static str {
        "send_email"
    }

    fn execute(&self, ctx: &JobContext) -> Result<u32, Cancelled> {
        if ctx.is_cancel_requested() {
            Err(Cancelled)
        } else {
            Ok(1)
        }
    }
}

fn context(cancel_requested: bool) -> JobContext {
    JobContext {
        execution_id: 1,
        job_id: 2,
        job_name: "send_email".to_string(),
        attempt: 0,
        max_attempts: 5,
        cancel_requested,
        config: Vec::new(),
    }
}

#[test]
fn handler_honors_the_execution_contract() {
    let handler = SendEmail;
    assert_eq!(handler.name(), "send_email");
    assert_eq!(handler.execute(&context(false)), Ok(1));
    // cancellation makes the handler return promptly with its own error
    assert_eq!(handler.execute(&context(true)), Err(Cancelled));
}

#[test]
fn context_exposes_attempt_bookkeeping_and_cancellation() {
    let ctx = JobContext {
        execution_id: 1,
        job_id: 2,
        job_name: "send_email".to_string(),
        attempt: 2,
        max_attempts: 5,
        cancel_requested: false,
        config: vec![
            ("smtp_host".to_string(), "mail.example.com".to_string()),
            ("smtp_host".to_string(), "shadowed.example.com".to_string()),
            ("region".to_string(), "eu".to_string()),
        ],
    };
    assert_eq!(ctx.remaining_attempts(), 3);
    assert!(!ctx.is_cancel_requested());
    assert_eq!(
        ctx.config_value(&"smtp_host".to_string()).map(String::as_str),
        Some("mail.example.com")
    );
    assert_eq!(
        ctx.config_value(&"region".to_string()).map(String::as_str),
        Some("eu")
    );
    assert_eq!(ctx.config_value(&"missing".to_string()), None);
}
