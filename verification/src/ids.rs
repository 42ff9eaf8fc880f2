//! Message identifiers.
//!
//! `uuid::Uuid` is carried through the library as an opaque value: the
//! library copies identifiers, parses them from text and makes fresh ones,
//! and never looks inside one. None of the contracts in this file is proved.

use vstd::prelude::*;

verus! {

/// `uuid::Uuid`, a 128-bit identifier.
#[verifier::external_type_specification]
#[verifier::external_body]
pub struct ExUuid(uuid::Uuid);

/// What `Uuid::parse_str` returns for a text: the identifier it denotes, or
/// `None` where the text is not in one of the UUID formats.
pub uninterp spec fn uuid_of(text: Seq<char>) -> Option<uuid::Uuid>;

/// Calls `Uuid::parse_str` and drops the error's detail: the result is the
/// one named [`uuid_of`] for the text.
#[verifier::external_body]
pub(crate) fn parse_uuid(text: &str) -> (r: Option<uuid::Uuid>)
    ensures
        r == uuid_of(text@),
{
    uuid::Uuid::parse_str(text).ok()
}

/// Calls `Uuid::new_v4`, which draws a random identifier: nothing is known
/// of the result.
#[verifier::external_body]
pub(crate) fn fresh_uuid() -> uuid::Uuid {
    uuid::Uuid::new_v4()
}

} // verus!
