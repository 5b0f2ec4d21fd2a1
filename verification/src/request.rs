use vstd::prelude::*;

verus! {

/// A job submission as it arrives at the enqueue path, already decoded from
/// the transport. Timestamps are milliseconds since the Unix epoch.
pub struct EnqueueRequest {
    /// Job type name, 1 to 100 characters.
    pub name: String,
    /// Opaque document handed through to the executor unmodified.
    pub payload: serde_json::Value,
    /// Requested run time; the submission time is used when absent.
    pub run_at: Option<i64>,
    /// Scheduling hint; 5 when absent.
    pub priority: Option<i16>,
    /// Deduplication key, 1 to 255 characters; absence requests no deduplication.
    pub idempotency_key: Option<String>,
}

/// Spec-level image of a submission: strings as character sequences.
pub struct EnqueueRequestView {
    pub name: Seq<char>,
    pub payload: serde_json::Value,
    pub run_at: Option<i64>,
    pub priority: Option<i16>,
    pub idempotency_key: Option<Seq<char>>,
}

impl View for EnqueueRequest {
    type V = EnqueueRequestView;

    open spec fn view(&self) -> EnqueueRequestView {
        EnqueueRequestView {
            name: self.name@,
            payload: self.payload,
            run_at: self.run_at,
            priority: self.priority,
            idempotency_key: match self.idempotency_key {
                Some(key) => Some(key@),
                None => None,
            },
        }
    }
}

/// A submission field that breaks the boundary contract.
#[derive(Clone, Copy, Debug, PartialEq, Eq, Structural)]
pub enum ValidationError {
    NameLength,
    IdempotencyKeyLength,
}

pub open spec fn valid_name(name: Seq<char>) -> bool {
    1 <= name.len() <= 100
}

pub open spec fn valid_idempotency_key(key: Option<Seq<char>>) -> bool {
    key matches Some(k) ==> 1 <= k.len() <= 255
}

/// The field constraints the boundary contract puts on a submission.
pub open spec fn valid_request(req: EnqueueRequestView) -> bool {
    valid_name(req.name) && valid_idempotency_key(req.idempotency_key)
}

/// What validation reports for a submission: the name is checked first, then
/// the idempotency key.
pub open spec fn validation_outcome(req: EnqueueRequestView) -> Result<(), ValidationError> {
    if !valid_name(req.name) {
        Err(ValidationError::NameLength)
    } else if !valid_idempotency_key(req.idempotency_key) {
        Err(ValidationError::IdempotencyKeyLength)
    } else {
        Ok(())
    }
}

/// Rejects a submission whose fields are out of range, so that an invalid
/// record never reaches the store.
pub fn validate_request(req: &EnqueueRequest) -> (result: Result<(), ValidationError>)
    ensures
        result == validation_outcome(req@),
        result is Ok <==> valid_request(req@),
{
    let name_len = req.name.as_str().unicode_len();
    if name_len < 1 || name_len > 100 {
        return Err(ValidationError::NameLength);
    }
    match &req.idempotency_key {
        Some(key) => {
            let key_len = key.as_str().unicode_len();
            if key_len < 1 || key_len > 255 {
                Err(ValidationError::IdempotencyKeyLength)
            } else {
                Ok(())
            }
        }
        None => Ok(()),
    }
}

} // verus!
