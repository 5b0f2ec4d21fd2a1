use vstd::prelude::*;

verus! {

/// An opaque structured payload document. The enqueue path carries it through
/// to the stored record unmodified and never looks inside it.
#[verifier::external_type_specification]
#[verifier::external_body]
pub struct ExValue(serde_json::Value);

/// Relies on serde_json::Value::clone (a derived Clone): the clone is equal
/// to the original document.
#[verifier::external_body]
pub(crate) fn clone_payload(payload: &serde_json::Value) -> (cloned: serde_json::Value)
    ensures
        cloned == *payload,
{
    payload.clone()
}

} // verus!
