//! Snake-case conversion of node names, done by the `convert_case` crate.

use convert_case::{Case, Casing};
use vstd::prelude::*;

verus! {

/// The snake-case form that `convert_case` gives to `name`.
pub uninterp spec fn snake_case_of(name: Seq<char>) -> Seq<char>;

/// Calls `convert_case::Casing::to_case` with `Case::Snake`: splits `name` at
/// the crate's default word boundaries, lowers each word and joins the words
/// with underscores. The contract only names the result: it is a function of
/// the characters of `name` and of nothing else.
#[verifier::external_body]
pub(crate) fn to_snake_case(name: &str) -> (r: String)
    ensures
        r@ == snake_case_of(name@),
{
    name.to_case(Case::Snake)
}

} // verus!
