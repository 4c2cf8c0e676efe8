//! Local accounts and sessions.

use vstd::prelude::*;
use vstd::string::StringExecFns;
use crate::error::Error;
use crate::models::user::{check_of, User};
use crate::models::Model;
use crate::types::str_uuid::Uuid;
use crate::types::timestamp::Timestamp;
use crate::util::uuid_text::uuid_canonical;

verus! {

/// Mathematical model of `LocalUser`.
pub struct LocalUserView {
    pub id: Seq<char>,
    pub username: Seq<char>,
    pub password: Seq<char>,
    pub groups: Seq<Seq<char>>,
    pub default_admin: bool,
}

/// A local account: a name, the hash of a password, and the groups it is in.
#[derive(Debug)]
pub struct LocalUser {
    id: Uuid,
    username: String,
    password: String,
    groups: Vec<Uuid>,
    default_admin: bool,
}

impl View for LocalUser {
    type V = LocalUserView;

    closed spec fn view(&self) -> LocalUserView {
        LocalUserView {
            id: self.id@,
            username: self.username@,
            password: self.password@,
            groups: self.groups.deep_view(),
            default_admin: self.default_admin,
        }
    }
}

impl DeepView for LocalUser {
    type V = LocalUserView;

    open spec fn deep_view(&self) -> LocalUserView {
        self@
    }
}

impl Clone for LocalUser {
    fn clone(&self) -> (r: Self)
        ensures
            r@ == self@,
    {
        LocalUser {
            id: self.id.clone(),
            username: self.username.clone(),
            password: self.password.clone(),
            groups: self.groups.clone(),
            default_admin: self.default_admin,
        }
    }
}

impl LocalUser {
    /// The value with the given parts.
    pub fn from_parts(
        id: Uuid,
        username: String,
        password: String,
        groups: Vec<Uuid>,
        default_admin: bool,
    ) -> (r: Self)
        ensures
            r@ == (LocalUserView {
                id: id@,
                username: username@,
                password: password@,
                groups: groups.deep_view(),
                default_admin: default_admin,
            }),
    {
        LocalUser { id, username, password, groups, default_admin }
    }

    /// Identifier.
    pub fn id(&self) -> (r: Uuid)
        ensures
            r@ == self@.id,
    {
        self.id.clone()
    }

    /// Name.
    pub fn username(&self) -> (r: String)
        ensures
            r@ == self@.username,
    {
        self.username.clone()
    }

    /// Identifiers of the groups that the account is in.
    pub fn groups(&self) -> (r: Vec<Uuid>)
        ensures
            r.deep_view() == self@.groups,
    {
        self.groups.clone()
    }

    /// Whether this is the administrator account that an installation starts with.
    pub fn default_admin(&self) -> (r: bool)
        ensures
            r == self@.default_admin,
    {
        self.default_admin
    }

    /// Puts `username` in place of the username.
    pub fn set_username(&mut self, username: String)
        ensures
            final(self)@ == (LocalUserView { username: username@, ..old(self)@ }),
    {
        self.username = username;
    }

    /// Puts `groups` in place of the groups.
    pub fn set_groups(&mut self, groups: Vec<Uuid>)
        ensures
            final(self)@ == (LocalUserView { groups: groups.deep_view(), ..old(self)@ }),
    {
        self.groups = groups;
    }
}

/// Mathematical model of `Session`.
pub struct SessionView {
    pub id: Seq<char>,
    pub user: Option<Seq<char>>,
    pub created: Timestamp,
    pub accessed: Timestamp,
}

/// A browser session, of a user once one has signed in.
#[derive(Debug)]
pub struct Session {
    id: Uuid,
    user: Option<Uuid>,
    created: Timestamp,
    accessed: Timestamp,
}

impl View for Session {
    type V = SessionView;

    closed spec fn view(&self) -> SessionView {
        SessionView {
            id: self.id@,
            user: self.user.deep_view(),
            created: self.created,
            accessed: self.accessed,
        }
    }
}

impl DeepView for Session {
    type V = SessionView;

    open spec fn deep_view(&self) -> SessionView {
        self@
    }
}

impl Clone for Session {
    fn clone(&self) -> (r: Self)
        ensures
            r@ == self@,
    {
        Session {
            id: self.id.clone(),
            user: self.user.clone(),
            created: self.created,
            accessed: self.accessed,
        }
    }
}

impl Session {
    /// The value with the given parts.
    pub fn from_parts(
        id: Uuid,
        user: Option<Uuid>,
        created: Timestamp,
        accessed: Timestamp,
    ) -> (r: Self)
        ensures
            r@ == (SessionView {
                id: id@,
                user: user.deep_view(),
                created: created,
                accessed: accessed,
            }),
    {
        Session { id, user, created, accessed }
    }

    /// Identifier.
    pub fn id(&self) -> (r: Uuid)
        ensures
            r@ == self@.id,
    {
        self.id.clone()
    }

    /// Identifier of the user of the session, if one has signed in.
    pub fn user(&self) -> (r: Option<Uuid>)
        ensures
            r.deep_view() == self@.user,
    {
        self.user.clone()
    }

    /// When the session began.
    pub fn created(&self) -> (r: Timestamp)
        ensures
            r == self@.created,
    {
        self.created
    }

    /// When the session was last used.
    pub fn accessed(&self) -> (r: Timestamp)
        ensures
            r == self@.accessed,
    {
        self.accessed
    }

    /// Puts `user` in place of the user.
    pub fn set_user(&mut self, user: Option<Uuid>)
        ensures
            final(self)@ == (SessionView { user: user.deep_view(), ..old(self)@ }),
    {
        self.user = user;
    }

    /// Puts `accessed` in place of the accessed.
    pub fn set_accessed(&mut self, accessed: Timestamp)
        ensures
            final(self)@ == (SessionView { accessed: accessed, ..old(self)@ }),
    {
        self.accessed = accessed;
    }
}

impl LocalUser {
    /// The hash of `password` under a fresh salt.
    fn make_password(password: &str) -> (r: Result<String, Error>)
        ensures
            match r {
                Ok(hashed) => check_of(password@, hashed@) == Some(true),
                Err(Error::PasswordGeneration(_)) => true,
                Err(Error::Unknown(_)) => true,
                Err(_) => false,
            },
    {
        match User::hash_value(password) {
            Ok(hashed) => Ok(hashed),
            Err(error) => Err(error),
        }
    }

    /// A new account `username` with the password `password`, in no group.
    fn create(username: &str, password: &str, default_admin: bool) -> (r: Result<Self, Error>)
        ensures
            match r {
                Ok(user) => {
                    &&& user@.username == username@
                    &&& check_of(password@, user@.password) == Some(true)
                    &&& user@.groups == Seq::<Seq<char>>::empty()
                    &&& user@.default_admin == default_admin
                    &&& uuid_canonical(user@.id) == Some(user@.id)
                },
                Err(Error::PasswordGeneration(_)) => true,
                Err(Error::Unknown(_)) => true,
                Err(_) => false,
            },
    {
        match Self::make_password(password) {
            Ok(hashed) => {
                let user = LocalUser {
                    id: Uuid::new(),
                    username: String::from_str(username),
                    password: hashed,
                    groups: Vec::new(),
                    default_admin,
                };
                assert(user@.groups =~= Seq::<Seq<char>>::empty());
                Ok(user)
            },
            Err(error) => Err(error),
        }
    }

    /// A new account `username` with the password `password`, in no group.
    pub fn new(username: &str, password: &str) -> (r: Result<Self, Error>)
        ensures
            match r {
                Ok(user) => {
                    &&& user@.username == username@
                    &&& check_of(password@, user@.password) == Some(true)
                    &&& user@.groups == Seq::<Seq<char>>::empty()
                    &&& !user@.default_admin
                    &&& uuid_canonical(user@.id) == Some(user@.id)
                },
                Err(Error::PasswordGeneration(_)) => true,
                Err(Error::Unknown(_)) => true,
                Err(_) => false,
            },
    {
        Self::create(username, password, false)
    }

    /// A new administrator account `username` with the password `password`.
    pub fn new_default_admin(username: &str, password: &str) -> (r: Result<Self, Error>)
        ensures
            match r {
                Ok(user) => {
                    &&& user@.username == username@
                    &&& check_of(password@, user@.password) == Some(true)
                    &&& user@.groups == Seq::<Seq<char>>::empty()
                    &&& user@.default_admin
                    &&& uuid_canonical(user@.id) == Some(user@.id)
                },
                Err(Error::PasswordGeneration(_)) => true,
                Err(Error::Unknown(_)) => true,
                Err(_) => false,
            },
    {
        Self::create(username, password, true)
    }

    /// Checks `password` against the stored hash: succeeds where it matches,
    /// fails with `IncorrectCredentials` where it does not, and with
    /// `PasswordGeneration` where the stored hash cannot be read or checked.
    pub fn verify(&self, password: &str) -> (r: Result<(), Error>)
        ensures
            match check_of(password@, self@.password) {
                Some(true) => r is Ok,
                Some(false) => r matches Err(Error::IncorrectCredentials),
                None => r matches Err(Error::PasswordGeneration(_)),
            },
    {
        match User::verify_value(password, self.password.as_str()) {
            Ok(true) => Ok(()),
            Ok(false) => Err(Error::IncorrectCredentials),
            Err(error) => Err(error),
        }
    }

    /// Replaces the password by `new_password`, for who knows the current one.
    ///
    /// Where `current_password` is not accepted, nothing changes and the call
    /// fails as `verify` does. Where it is accepted, the stored hash is
    /// replaced by a fresh one that accepts `new_password`, unless the hashing
    /// fails, which leaves the account as it was.
    pub fn set_password(&mut self, current_password: &str, new_password: &str) -> (r: Result<
        (),
        Error,
    >)
        ensures
            match check_of(current_password@, old(self)@.password) {
                Some(true) => match r {
                    Ok(()) => {
                        &&& check_of(new_password@, final(self)@.password) == Some(true)
                        &&& final(self)@ == (LocalUserView {
                            password: final(self)@.password,
                            ..old(self)@
                        })
                    },
                    Err(Error::PasswordGeneration(_)) => final(self)@ == old(self)@,
                    Err(Error::Unknown(_)) => final(self)@ == old(self)@,
                    Err(_) => false,
                },
                Some(false) => r matches Err(Error::IncorrectCredentials) && final(self)@ == old(
                    self,
                )@,
                None => r matches Err(Error::PasswordGeneration(_)) && final(self)@ == old(self)@,
            },
    {
        match self.verify(current_password) {
            Ok(()) => {},
            Err(error) => {
                return Err(error);
            },
        }
        match Self::make_password(new_password) {
            Ok(hashed) => {
                self.password = hashed;
                Ok(())
            },
            Err(error) => Err(error),
        }
    }
}

impl Model for LocalUser {
    open spec fn model_id_of(&self) -> Seq<char> {
        self@.id
    }

    fn collection() -> (r: &'static str)
        ensures
            r@ == "auth.users.local"@,
    {
        "auth.users.local"
    }

    fn model_id(&self) -> (r: Uuid) {
        self.id()
    }
}

impl Model for Session {
    open spec fn model_id_of(&self) -> Seq<char> {
        self@.id
    }

    fn collection() -> (r: &'static str)
        ensures
            r@ == "auth.session"@,
    {
        "auth.session"
    }

    fn model_id(&self) -> (r: Uuid) {
        self.id()
    }
}

} // verus!
