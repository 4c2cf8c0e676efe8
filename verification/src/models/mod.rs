//! The entities that the persistence layer stores.

use vstd::prelude::*;
use vstd::string::StringExecFns;
use crate::types::str_uuid::Uuid;

pub mod auth;
pub mod permission;
pub mod root_directory;
pub mod token;
pub mod user;

pub use token::Token;
pub use user::{User, UserKind, UserMethods};

verus! {

/// An entity that the persistence layer stores in a collection of its own,
/// under an identifier.
pub trait Model: Sized {
    /// The identifier as a mathematical value.
    spec fn model_id_of(&self) -> Seq<char>;

    /// Name of the collection that holds the entities of this type.
    fn collection() -> &'static str;

    /// Identifier under which the entity is stored.
    fn model_id(&self) -> (r: Uuid)
        ensures
            r@ == self.model_id_of(),
    ;

    /// Name of the field that holds the identifier.
    fn model_id_field() -> (r: String)
        ensures
            r@ == "id"@,
    {
        String::from_str("id")
    }
}

} // verus!
