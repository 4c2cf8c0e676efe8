//! Identifiers: UUIDs kept in their canonical text form.

use vstd::prelude::*;
use vstd::std_specs::cmp::PartialEqSpecImpl;
use vstd::string::StringExecFns;
use crate::error::Error;
use crate::util::uuid_text::{parse_uuid_text, random_uuid_text, uuid_canonical};

verus! {

/// A UUID, held as text.
#[derive(Debug, Eq, PartialOrd, Ord, Hash)]
pub struct Uuid(pub String);

impl Clone for Uuid {
    fn clone(&self) -> (r: Self)
        ensures
            r@ == self@,
    {
        Uuid(self.0.clone())
    }
}

impl View for Uuid {
    type V = Seq<char>;

    open spec fn view(&self) -> Seq<char> {
        self.0@
    }
}

impl DeepView for Uuid {
    type V = Seq<char>;

    open spec fn deep_view(&self) -> Seq<char> {
        self.0@
    }
}

impl PartialEq for Uuid {
    fn eq(&self, other: &Self) -> (r: bool) {
        self.0 == other.0
    }
}

impl PartialEqSpecImpl for Uuid {
    open spec fn obeys_eq_spec() -> bool {
        true
    }

    open spec fn eq_spec(&self, other: &Self) -> bool {
        self.0@ == other.0@
    }
}

impl Uuid {
    /// Whether the identifier is the canonical text of a UUID.
    pub open spec fn canonical(&self) -> bool {
        uuid_canonical(self@) == Some(self@)
    }

    /// A fresh random identifier.
    pub fn new() -> (r: Self)
        ensures
            r.canonical(),
    {
        Uuid(random_uuid_text())
    }

    /// Reads an identifier from any of the text forms of a UUID and keeps it in
    /// canonical form. Fails with `InvalidUuid`, carrying `text`, where `text`
    /// denotes no UUID.
    pub fn from_str(text: &str) -> (r: Result<Self, Error>)
        ensures
            match r {
                Ok(id) => uuid_canonical(text@) == Some(id@) && id.canonical(),
                Err(Error::InvalidUuid(rejected)) => uuid_canonical(text@) is None && rejected@
                    == text@,
                Err(_) => false,
            },
    {
        match parse_uuid_text(text) {
            Some(canonical) => Ok(Uuid(canonical)),
            None => Err(Error::InvalidUuid(String::from_str(text))),
        }
    }

    /// The identifier as text.
    pub fn to_string(&self) -> (r: String)
        ensures
            r@ == self@,
    {
        self.0.clone()
    }
}

} // verus!
