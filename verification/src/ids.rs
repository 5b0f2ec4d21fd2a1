use vstd::prelude::*;

verus! {

/// The canonical text form of the 128-bit job identifier `id`: a function of
/// the identifier's bits alone, the same in every process.
pub uninterp spec fn uuid_text_of(id: u128) -> Seq<char>;

/// Relies on uuid::Uuid::new_v4: a freshly drawn random version-4 identifier,
/// taken as its 128-bit value. Nothing can be promised of a random draw.
#[verifier::external_body]
pub(crate) fn generate_candidate_id() -> u128 {
    uuid::Uuid::new_v4().as_u128()
}

/// Relies on uuid::Uuid::hyphenated (the identifier's Display form): the
/// canonical lowercase hyphenated encoding, 36 characters, determined by the
/// identifier's bits alone.
#[verifier::external_body]
pub(crate) fn uuid_hyphenated(id: u128) -> (text: String)
    ensures
        text@ == uuid_text_of(id),
        text@.len() == 36,
{
    uuid::Uuid::from_u128(id).hyphenated().to_string()
}

} // verus!
