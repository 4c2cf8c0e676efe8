//! UUID generation and parsing, done by the `uuid` crate.

use std::str::FromStr;
use vstd::prelude::*;

verus! {

/// The canonical text (lower case, hyphenated) of the UUID that `text`
/// denotes for the `uuid` crate; `None` where `text` denotes none.
pub uninterp spec fn uuid_canonical(text: Seq<char>) -> Option<Seq<char>>;

/// Calls `uuid::Uuid::new_v4` and writes the result with `to_string`: a random
/// version-4 UUID in the crate's canonical text form, which the crate's parser
/// reads back as the same UUID.
#[verifier::external_body]
pub(crate) fn random_uuid_text() -> (r: String)
    ensures
        uuid_canonical(r@) == Some(r@),
{
    uuid::Uuid::new_v4().to_string()
}

/// Calls `uuid::Uuid::from_str` and writes the result with `to_string`: the
/// canonical text of the UUID that `text` denotes, or nothing where the crate's
/// parser rejects `text`. Canonical text denotes the UUID it was written from.
#[verifier::external_body]
pub(crate) fn parse_uuid_text(text: &str) -> (r: Option<String>)
    ensures
        r.deep_view() == uuid_canonical(text@),
        r matches Some(canonical) ==> uuid_canonical(canonical@) == Some(canonical@),
{
    match uuid::Uuid::from_str(text) {
        Ok(parsed) => Some(parsed.to_string()),
        Err(_) => None,
    }
}

} // verus!
