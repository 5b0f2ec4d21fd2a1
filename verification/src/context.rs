use vstd::prelude::*;

use crate::status::{transition_allowed, JobStatus};

verus! {

/// The first match for `key` in the configuration snapshot.
pub open spec fn config_lookup(config: Seq<(String, String)>, key: Seq<char>) -> Option<
    Seq<char>,
>
    decreases config.len(),
{
    if config.len() == 0 {
        None
    } else if config[0].0@ == key {
        Some(config[0].1@)
    } else {
        config_lookup(config.drop_first(), key)
    }
}

/// The context a worker constructs fresh for each execution attempt and hands
/// to the job handler, discarded at attempt end. It carries the attempt's
/// identity and bookkeeping as plain values; the shared infrastructure
/// handles (store, notifier, outbound client, observability sink) stay with
/// the worker and are only borrowed for the attempt.
pub struct JobContext {
    /// Identity of this execution attempt.
    pub execution_id: u128,
    /// Identity of the job being run.
    pub job_id: u128,
    /// Job type name, as stored.
    pub job_name: String,
    /// Which attempt this is, counted from zero.
    pub attempt: u16,
    /// Retry budget ceiling, fixed at enqueue time.
    pub max_attempts: u16,
    /// The cooperative shutdown signal as observed at the last safe point.
    pub cancel_requested: bool,
    /// Read-only snapshot of process configuration.
    pub config: Vec<(String, String)>,
}

impl JobContext {
    /// A worker only constructs a context while retry budget remains.
    pub open spec fn wf(&self) -> bool {
        self.attempt < self.max_attempts
    }

    /// Attempts still available, this one included.
    pub fn remaining_attempts(&self) -> (remaining: u16)
        requires
            self.wf(),
        ensures
            remaining == self.max_attempts - self.attempt,
    {
        self.max_attempts - self.attempt
    }

    /// The cancellation signal as last observed: a handler seeing `true` must
    /// return promptly with a distinguished cancellation error rather than
    /// completing or hanging.
    pub fn is_cancel_requested(&self) -> (cancelled: bool)
        ensures
            cancelled == self.cancel_requested,
    {
        self.cancel_requested
    }

    /// The configured value under `key`: the first pair that carries it.
    pub fn config_value(&self, key: &String) -> (value: Option<&String>)
        ensures
            match value {
                Some(v) => config_lookup(self.config@, key@) == Some(v@),
                None => config_lookup(self.config@, key@) is None,
            },
    {
        proof {
            assert(self.config@.skip(0) =~= self.config@);
        }
        let n = self.config.len();
        let mut i: usize = 0;
        while i < n
            invariant
                n == self.config@.len(),
                i <= n,
                config_lookup(self.config@, key@) == config_lookup(
                    self.config@.skip(i as int),
                    key@,
                ),
            decreases n - i,
        {
            proof {
                assert(self.config@.skip(i as int)[0] == self.config@[i as int]);
                assert(self.config@.skip(i as int).drop_first() =~= self.config@.skip(
                    i as int + 1,
                ));
            }
            if self.config[i].0 == *key {
                return Some(&self.config[i].1);
            }
            i += 1;
        }
        proof {
            assert(self.config@.skip(n as int) =~= Seq::<(String, String)>::empty());
        }
        None
    }
}

/// The execution contract: the interface a worker-side job handler
/// implements. A handler declares the job name it serves, an output type and
/// an error type, and exposes one operation. It must observe the context's
/// cancellation signal cooperatively at its own safe points; failure
/// semantics belong to the worker that calls it, per `settle_attempt`.
pub trait Job {
    type Output;

    type Error;

    /// The job type name this handler serves.
    fn name(&self) -> &'static str;

    /// Runs one attempt under `ctx`.
    fn execute(&self, ctx: &JobContext) -> Result<Self::Output, Self::Error>
        requires
            ctx.wf(),
    ;
}

/// The status an attempt settles to: success completes the job; failure
/// returns it to `Pending` while retry budget remains and marks it `Failed`
/// terminally otherwise.
pub open spec fn settle_status_spec(attempts: u16, max_attempts: u16, succeeded: bool) -> JobStatus {
    if succeeded {
        JobStatus::Completed
    } else if attempts + 1 < max_attempts {
        JobStatus::Pending
    } else {
        JobStatus::Failed
    }
}

/// How the worker settles a finished attempt: the attempt count grows by one
/// and the job moves to the status the retry rule picks.
pub fn settle_attempt(attempts: u16, max_attempts: u16, succeeded: bool) -> (settled: (
    JobStatus,
    u16,
))
    requires
        attempts < max_attempts,
    ensures
        settled.1 == attempts + 1,
        settled.0 == settle_status_spec(attempts, max_attempts, succeeded),
{
    let next_attempts = attempts + 1;
    let status = if succeeded {
        JobStatus::Completed
    } else if next_attempts < max_attempts {
        JobStatus::Pending
    } else {
        JobStatus::Failed
    };
    (status, next_attempts)
}

/// Settling follows the state machine from `Running`: success takes the
/// completion edge; failure takes the failure edge and then the retry edge
/// back to `Pending` exactly when budget remains.
pub proof fn lemma_settle_follows_state_machine(attempts: u16, max_attempts: u16, succeeded: bool)
    requires
        attempts < max_attempts,
    ensures
        ({
            let status = settle_status_spec(attempts, max_attempts, succeeded);
            let next_attempts = (attempts + 1) as u16;
            &&& succeeded ==> status is Completed && transition_allowed(
                JobStatus::Running,
                status,
                next_attempts,
                max_attempts,
            )
            &&& !succeeded ==> transition_allowed(
                JobStatus::Running,
                JobStatus::Failed,
                next_attempts,
                max_attempts,
            )
            &&& !succeeded && next_attempts < max_attempts ==> status is Pending
                && transition_allowed(JobStatus::Failed, status, next_attempts, max_attempts)
            &&& !succeeded && next_attempts == max_attempts ==> status is Failed
        }),
{
}

} // verus!
