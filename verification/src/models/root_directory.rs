//! Root directories: the places in the file system that the service hands out.

use vstd::prelude::*;
use vstd::string::StringExecFns;
use crate::error::Error;
use crate::models::Model;
use crate::types::str_uuid::Uuid;
use crate::util::uuid_text::uuid_canonical;

verus! {

/// Mathematical model of `RootDirectory`.
pub struct RootDirectoryView {
    pub id: Seq<char>,
    pub name: Seq<char>,
    pub display_name: Option<Seq<char>>,
    pub path: Seq<char>,
}

/// A root directory: a name, a name to show, and its path in the file system.
#[derive(Debug)]
pub struct RootDirectory {
    id: Uuid,
    name: String,
    display_name: Option<String>,
    path: String,
}

impl View for RootDirectory {
    type V = RootDirectoryView;

    closed spec fn view(&self) -> RootDirectoryView {
        RootDirectoryView {
            id: self.id@,
            name: self.name@,
            display_name: self.display_name.deep_view(),
            path: self.path@,
        }
    }
}

impl DeepView for RootDirectory {
    type V = RootDirectoryView;

    open spec fn deep_view(&self) -> RootDirectoryView {
        self@
    }
}

impl Clone for RootDirectory {
    fn clone(&self) -> (r: Self)
        ensures
            r@ == self@,
    {
        RootDirectory {
            id: self.id.clone(),
            name: self.name.clone(),
            display_name: self.display_name.clone(),
            path: self.path.clone(),
        }
    }
}

impl RootDirectory {
    /// The value with the given parts.
    pub fn from_parts(
        id: Uuid,
        name: String,
        display_name: Option<String>,
        path: String,
    ) -> (r: Self)
        ensures
            r@ == (RootDirectoryView {
                id: id@,
                name: name@,
                display_name: display_name.deep_view(),
                path: path@,
            }),
    {
        RootDirectory { id, name, display_name, path }
    }

    /// Identifier.
    pub fn id(&self) -> (r: Uuid)
        ensures
            r@ == self@.id,
    {
        self.id.clone()
    }

    /// Name.
    pub fn name(&self) -> (r: String)
        ensures
            r@ == self@.name,
    {
        self.name.clone()
    }

    /// Name to show, if another than the name.
    pub fn display_name(&self) -> (r: Option<String>)
        ensures
            r.deep_view() == self@.display_name,
    {
        self.display_name.clone()
    }

    /// Path in the file system.
    pub fn path(&self) -> (r: String)
        ensures
            r@ == self@.path,
    {
        self.path.clone()
    }

    /// The same value with `id` in place of its id.
    pub fn with_id(self, id: Uuid) -> (r: Self)
        ensures
            r@ == (RootDirectoryView { id: id@, ..self@ }),
    {
        RootDirectory { id, ..self }
    }

    /// The same value with `name` in place of its name.
    pub fn with_name(self, name: String) -> (r: Self)
        ensures
            r@ == (RootDirectoryView { name: name@, ..self@ }),
    {
        RootDirectory { name, ..self }
    }

    /// The same value with `display_name` in place of its display name.
    pub fn with_display_name(self, display_name: Option<String>) -> (r: Self)
        ensures
            r@ == (RootDirectoryView { display_name: display_name.deep_view(), ..self@ }),
    {
        RootDirectory { display_name, ..self }
    }

    /// The same value with `path` in place of its path.
    pub fn with_path(self, path: String) -> (r: Self)
        ensures
            r@ == (RootDirectoryView { path: path@, ..self@ }),
    {
        RootDirectory { path, ..self }
    }
}

impl RootDirectory {
    /// A root directory with a fresh identifier.
    pub fn new(name: &str, display_name: Option<&str>, path: &str) -> (r: Self)
        ensures
            r@.name == name@,
            r@.display_name == match display_name {
                Some(shown) => Some(shown@),
                None => None,
            },
            r@.path == path@,
            uuid_canonical(r@.id) == Some(r@.id),
    {
        RootDirectory {
            id: Uuid::new(),
            name: String::from_str(name),
            display_name: match display_name {
                Some(shown) => Some(String::from_str(shown)),
                None => None,
            },
            path: String::from_str(path),
        }
    }

    /// What to store for the configured directory `name`, given what the
    /// store has under that name: nothing where the stored directory has the
    /// configured path and name to show; else the configured directory, under
    /// the identifier of the stored one where there is one.
    pub fn reconcile(
        existing: Option<RootDirectory>,
        name: &str,
        display_name: Option<&str>,
        path: &str,
    ) -> (r: Option<RootDirectory>)
        ensures
            match existing {
                Some(stored) => {
                    if stored@.path == path@ && stored@.display_name == shown_view(display_name) {
                        r is None
                    } else {
                        r matches Some(root) && root@ == (RootDirectoryView {
                            id: stored@.id,
                            name: name@,
                            display_name: shown_view(display_name),
                            path: path@,
                        })
                    }
                },
                None => r matches Some(root) && root@.name == name@ && root@.display_name
                    == shown_view(display_name) && root@.path == path@,
            },
    {
        match existing {
            Some(stored) => {
                let same_path = crate::util::text::str_eq(stored.path.as_str(), path);
                let same_shown = match (&stored.display_name, display_name) {
                    (Some(a), Some(b)) => crate::util::text::str_eq(a.as_str(), b),
                    (None, None) => true,
                    _ => false,
                };
                if same_path && same_shown {
                    None
                } else {
                    Some(RootDirectory::new(name, display_name, path).with_id(stored.id()))
                }
            },
            None => Some(RootDirectory::new(name, display_name, path)),
        }
    }
}

/// The name to show as a mathematical value.
pub open spec fn shown_view(display_name: Option<&str>) -> Option<Seq<char>> {
    match display_name {
        Some(shown) => Some(shown@),
        None => None,
    }
}

impl Model for RootDirectory {
    open spec fn model_id_of(&self) -> Seq<char> {
        self@.id
    }

    fn collection() -> (r: &'static str)
        ensures
            r@ == "resources.roots"@,
    {
        "resources.roots"
    }

    fn model_id(&self) -> (r: Uuid) {
        self.id()
    }
}

/// A store of root directories that can be asked by name.
pub trait RootDirectoryCollectionExt {
    /// The root directory `name`, if the store has one.
    fn by_name(&self, name: &str) -> Result<Option<RootDirectory>, Error>;
}

} // verus!
