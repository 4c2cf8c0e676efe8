//! The identity model: the four kinds of user, and the hashing and checking of
//! their secrets.

use vstd::prelude::*;
use vstd::string::StringExecFns;
use crate::error::{joined, Error};
use crate::models::Model;
use crate::types::str_uuid::Uuid;
use crate::util::secret::{
    argon2_hash, argon2_phc, argon2_verify, base64_url, base64_url_text, phc_verifies,
    random_bytes,
};
use crate::util::text::str_eq;
use crate::util::uuid_text::uuid_canonical;

verus! {

/// The kinds of user.
#[derive(Clone, Copy, Debug, PartialEq, Eq, PartialOrd, Ord, Hash, Structural)]
pub enum UserKind {
    Local,
    Owner,
    Oidc,
    Application,
}

impl UserKind {
    /// The name of the kind, in lower case.
    pub open spec fn name_of(self) -> Seq<char> {
        match self {
            UserKind::Local => "local"@,
            UserKind::Owner => "owner"@,
            UserKind::Oidc => "oidc"@,
            UserKind::Application => "application"@,
        }
    }

    /// The name of the kind, in lower case.
    pub fn to_string(&self) -> (r: String)
        ensures
            r@ == self.name_of(),
    {
        match self {
            UserKind::Local => String::from_str("local"),
            UserKind::Owner => String::from_str("owner"),
            UserKind::Oidc => String::from_str("oidc"),
            UserKind::Application => String::from_str("application"),
        }
    }
}

/// Mathematical model of `LocalUser` and `OwnerUser`.
pub struct PasswordUserView {
    pub id: Seq<char>,
    pub name: Seq<char>,
    pub password: Seq<char>,
    pub groups: Seq<Seq<char>>,
}

/// A user who signs in with a name and a password.
#[derive(Debug)]
pub struct LocalUser {
    id: Uuid,
    name: String,
    password: String,
    groups: Vec<String>,
}

impl View for LocalUser {
    type V = PasswordUserView;

    closed spec fn view(&self) -> PasswordUserView {
        PasswordUserView {
            id: self.id@,
            name: self.name@,
            password: self.password@,
            groups: self.groups.deep_view(),
        }
    }
}

impl DeepView for LocalUser {
    type V = PasswordUserView;

    open spec fn deep_view(&self) -> PasswordUserView {
        self@
    }
}

impl Clone for LocalUser {
    fn clone(&self) -> (r: Self)
        ensures
            r@ == self@,
    {
        LocalUser {
            id: self.id.clone(),
            name: self.name.clone(),
            password: self.password.clone(),
            groups: self.groups.clone(),
        }
    }
}

impl LocalUser {
    /// The value with the given parts.
    pub fn from_parts(id: Uuid, name: String, password: String, groups: Vec<String>) -> (r: Self)
        ensures
            r@ == (PasswordUserView {
                id: id@,
                name: name@,
                password: password@,
                groups: groups.deep_view(),
            }),
    {
        LocalUser { id, name, password, groups }
    }

    /// Identifier.
    pub fn id(&self) -> (r: Uuid)
        ensures
            r@ == self@.id,
    {
        self.id.clone()
    }

    /// Name.
    pub fn name(&self) -> (r: String)
        ensures
            r@ == self@.name,
    {
        self.name.clone()
    }

    /// Hash of the password.
    pub fn password(&self) -> (r: String)
        ensures
            r@ == self@.password,
    {
        self.password.clone()
    }

    /// Names of the groups that the user is in.
    pub fn groups(&self) -> (r: Vec<String>)
        ensures
            r.deep_view() == self@.groups,
    {
        self.groups.clone()
    }

    /// The same value with `id` in place of its id.
    pub fn with_id(self, id: Uuid) -> (r: Self)
        ensures
            r@ == (PasswordUserView { id: id@, ..self@ }),
    {
        LocalUser { id, ..self }
    }

    /// The same value with `name` in place of its name.
    pub fn with_name(self, name: String) -> (r: Self)
        ensures
            r@ == (PasswordUserView { name: name@, ..self@ }),
    {
        LocalUser { name, ..self }
    }

    /// The same value with `password` in place of its password.
    pub fn with_password(self, password: String) -> (r: Self)
        ensures
            r@ == (PasswordUserView { password: password@, ..self@ }),
    {
        LocalUser { password, ..self }
    }

    /// The same value with `groups` in place of its groups.
    pub fn with_groups(self, groups: Vec<String>) -> (r: Self)
        ensures
            r@ == (PasswordUserView { groups: groups.deep_view(), ..self@ }),
    {
        LocalUser { groups, ..self }
    }
}

/// The owner of the installation, who signs in with a name and a password.
#[derive(Debug)]
pub struct OwnerUser {
    id: Uuid,
    name: String,
    password: String,
    groups: Vec<String>,
}

impl View for OwnerUser {
    type V = PasswordUserView;

    closed spec fn view(&self) -> PasswordUserView {
        PasswordUserView {
            id: self.id@,
            name: self.name@,
            password: self.password@,
            groups: self.groups.deep_view(),
        }
    }
}

impl DeepView for OwnerUser {
    type V = PasswordUserView;

    open spec fn deep_view(&self) -> PasswordUserView {
        self@
    }
}

impl Clone for OwnerUser {
    fn clone(&self) -> (r: Self)
        ensures
            r@ == self@,
    {
        OwnerUser {
            id: self.id.clone(),
            name: self.name.clone(),
            password: self.password.clone(),
            groups: self.groups.clone(),
        }
    }
}

impl OwnerUser {
    /// The value with the given parts.
    pub fn from_parts(id: Uuid, name: String, password: String, groups: Vec<String>) -> (r: Self)
        ensures
            r@ == (PasswordUserView {
                id: id@,
                name: name@,
                password: password@,
                groups: groups.deep_view(),
            }),
    {
        OwnerUser { id, name, password, groups }
    }

    /// Identifier.
    pub fn id(&self) -> (r: Uuid)
        ensures
            r@ == self@.id,
    {
        self.id.clone()
    }

    /// Name.
    pub fn name(&self) -> (r: String)
        ensures
            r@ == self@.name,
    {
        self.name.clone()
    }

    /// Hash of the password.
    pub fn password(&self) -> (r: String)
        ensures
            r@ == self@.password,
    {
        self.password.clone()
    }

    /// Names of the groups that the user is in.
    pub fn groups(&self) -> (r: Vec<String>)
        ensures
            r.deep_view() == self@.groups,
    {
        self.groups.clone()
    }

    /// The same value with `id` in place of its id.
    pub fn with_id(self, id: Uuid) -> (r: Self)
        ensures
            r@ == (PasswordUserView { id: id@, ..self@ }),
    {
        OwnerUser { id, ..self }
    }

    /// The same value with `name` in place of its name.
    pub fn with_name(self, name: String) -> (r: Self)
        ensures
            r@ == (PasswordUserView { name: name@, ..self@ }),
    {
        OwnerUser { name, ..self }
    }

    /// The same value with `password` in place of its password.
    pub fn with_password(self, password: String) -> (r: Self)
        ensures
            r@ == (PasswordUserView { password: password@, ..self@ }),
    {
        OwnerUser { password, ..self }
    }

    /// The same value with `groups` in place of its groups.
    pub fn with_groups(self, groups: Vec<String>) -> (r: Self)
        ensures
            r@ == (PasswordUserView { groups: groups.deep_view(), ..self@ }),
    {
        OwnerUser { groups, ..self }
    }
}

/// Mathematical model of `OidcUser`.
pub struct OidcUserView {
    pub id: Seq<char>,
    pub name: Seq<char>,
    pub groups: Seq<Seq<char>>,
    pub oidc_groups: Seq<Seq<char>>,
}

/// A user who signs in through an OIDC provider.
#[derive(Debug)]
pub struct OidcUser {
    id: Uuid,
    name: String,
    groups: Vec<String>,
    oidc_groups: Vec<String>,
}

impl View for OidcUser {
    type V = OidcUserView;

    closed spec fn view(&self) -> OidcUserView {
        OidcUserView {
            id: self.id@,
            name: self.name@,
            groups: self.groups.deep_view(),
            oidc_groups: self.oidc_groups.deep_view(),
        }
    }
}

impl DeepView for OidcUser {
    type V = OidcUserView;

    open spec fn deep_view(&self) -> OidcUserView {
        self@
    }
}

impl Clone for OidcUser {
    fn clone(&self) -> (r: Self)
        ensures
            r@ == self@,
    {
        OidcUser {
            id: self.id.clone(),
            name: self.name.clone(),
            groups: self.groups.clone(),
            oidc_groups: self.oidc_groups.clone(),
        }
    }
}

impl OidcUser {
    /// The value with the given parts.
    pub fn from_parts(
        id: Uuid,
        name: String,
        groups: Vec<String>,
        oidc_groups: Vec<String>,
    ) -> (r: Self)
        ensures
            r@ == (OidcUserView {
                id: id@,
                name: name@,
                groups: groups.deep_view(),
                oidc_groups: oidc_groups.deep_view(),
            }),
    {
        OidcUser { id, name, groups, oidc_groups }
    }

    /// Identifier.
    pub fn id(&self) -> (r: Uuid)
        ensures
            r@ == self@.id,
    {
        self.id.clone()
    }

    /// Name.
    pub fn name(&self) -> (r: String)
        ensures
            r@ == self@.name,
    {
        self.name.clone()
    }

    /// Names of the groups that the user is in.
    pub fn groups(&self) -> (r: Vec<String>)
        ensures
            r.deep_view() == self@.groups,
    {
        self.groups.clone()
    }

    /// Groups that the OIDC provider reports.
    pub fn oidc_groups(&self) -> (r: Vec<String>)
        ensures
            r.deep_view() == self@.oidc_groups,
    {
        self.oidc_groups.clone()
    }

    /// The same value with `id` in place of its id.
    pub fn with_id(self, id: Uuid) -> (r: Self)
        ensures
            r@ == (OidcUserView { id: id@, ..self@ }),
    {
        OidcUser { id, ..self }
    }

    /// The same value with `name` in place of its name.
    pub fn with_name(self, name: String) -> (r: Self)
        ensures
            r@ == (OidcUserView { name: name@, ..self@ }),
    {
        OidcUser { name, ..self }
    }

    /// The same value with `groups` in place of its groups.
    pub fn with_groups(self, groups: Vec<String>) -> (r: Self)
        ensures
            r@ == (OidcUserView { groups: groups.deep_view(), ..self@ }),
    {
        OidcUser { groups, ..self }
    }

    /// The same value with `oidc_groups` in place of its oidc groups.
    pub fn with_oidc_groups(self, oidc_groups: Vec<String>) -> (r: Self)
        ensures
            r@ == (OidcUserView { oidc_groups: oidc_groups.deep_view(), ..self@ }),
    {
        OidcUser { oidc_groups, ..self }
    }
}

/// Mathematical model of `ApplicationUser`.
pub struct ApplicationUserView {
    pub id: Seq<char>,
    pub name: Seq<char>,
    pub groups: Seq<Seq<char>>,
    pub owner: Seq<char>,
    pub client_id: Seq<char>,
    pub client_secret: Seq<char>,
}

/// An application that signs in with a client id and a client secret.
#[derive(Debug)]
pub struct ApplicationUser {
    id: Uuid,
    name: String,
    groups: Vec<String>,
    owner: Uuid,
    client_id: String,
    client_secret: String,
}

impl View for ApplicationUser {
    type V = ApplicationUserView;

    closed spec fn view(&self) -> ApplicationUserView {
        ApplicationUserView {
            id: self.id@,
            name: self.name@,
            groups: self.groups.deep_view(),
            owner: self.owner@,
            client_id: self.client_id@,
            client_secret: self.client_secret@,
        }
    }
}

impl DeepView for ApplicationUser {
    type V = ApplicationUserView;

    open spec fn deep_view(&self) -> ApplicationUserView {
        self@
    }
}

impl Clone for ApplicationUser {
    fn clone(&self) -> (r: Self)
        ensures
            r@ == self@,
    {
        ApplicationUser {
            id: self.id.clone(),
            name: self.name.clone(),
            groups: self.groups.clone(),
            owner: self.owner.clone(),
            client_id: self.client_id.clone(),
            client_secret: self.client_secret.clone(),
        }
    }
}

impl ApplicationUser {
    /// The value with the given parts.
    pub fn from_parts(
        id: Uuid,
        name: String,
        groups: Vec<String>,
        owner: Uuid,
        client_id: String,
        client_secret: String,
    ) -> (r: Self)
        ensures
            r@ == (ApplicationUserView {
                id: id@,
                name: name@,
                groups: groups.deep_view(),
                owner: owner@,
                client_id: client_id@,
                client_secret: client_secret@,
            }),
    {
        ApplicationUser { id, name, groups, owner, client_id, client_secret }
    }

    /// Identifier.
    pub fn id(&self) -> (r: Uuid)
        ensures
            r@ == self@.id,
    {
        self.id.clone()
    }

    /// Name.
    pub fn name(&self) -> (r: String)
        ensures
            r@ == self@.name,
    {
        self.name.clone()
    }

    /// Names of the groups that the user is in.
    pub fn groups(&self) -> (r: Vec<String>)
        ensures
            r.deep_view() == self@.groups,
    {
        self.groups.clone()
    }

    /// Identifier of the user who owns the application.
    pub fn owner(&self) -> (r: Uuid)
        ensures
            r@ == self@.owner,
    {
        self.owner.clone()
    }

    /// Client id.
    pub fn client_id(&self) -> (r: String)
        ensures
            r@ == self@.client_id,
    {
        self.client_id.clone()
    }

    /// Hash of the client secret.
    pub fn client_secret(&self) -> (r: String)
        ensures
            r@ == self@.client_secret,
    {
        self.client_secret.clone()
    }

    /// The same value with `id` in place of its id.
    pub fn with_id(self, id: Uuid) -> (r: Self)
        ensures
            r@ == (ApplicationUserView { id: id@, ..self@ }),
    {
        ApplicationUser { id, ..self }
    }

    /// The same value with `name` in place of its name.
    pub fn with_name(self, name: String) -> (r: Self)
        ensures
            r@ == (ApplicationUserView { name: name@, ..self@ }),
    {
        ApplicationUser { name, ..self }
    }

    /// The same value with `groups` in place of its groups.
    pub fn with_groups(self, groups: Vec<String>) -> (r: Self)
        ensures
            r@ == (ApplicationUserView { groups: groups.deep_view(), ..self@ }),
    {
        ApplicationUser { groups, ..self }
    }

    /// The same value with `owner` in place of its owner.
    pub fn with_owner(self, owner: Uuid) -> (r: Self)
        ensures
            r@ == (ApplicationUserView { owner: owner@, ..self@ }),
    {
        ApplicationUser { owner, ..self }
    }

    /// The same value with `client_id` in place of its client id.
    pub fn with_client_id(self, client_id: String) -> (r: Self)
        ensures
            r@ == (ApplicationUserView { client_id: client_id@, ..self@ }),
    {
        ApplicationUser { client_id, ..self }
    }

    /// The same value with `client_secret` in place of its client secret.
    pub fn with_client_secret(self, client_secret: String) -> (r: Self)
        ensures
            r@ == (ApplicationUserView { client_secret: client_secret@, ..self@ }),
    {
        ApplicationUser { client_secret, ..self }
    }
}

impl LocalUser {
    /// A local user without groups, with a fresh identifier; `password` is the
    /// hash of the password.
    pub fn new(name: String, password: String) -> (r: Self)
        ensures
            r@.name == name@,
            r@.password == password@,
            r@.groups == Seq::<Seq<char>>::empty(),
            uuid_canonical(r@.id) == Some(r@.id),
    {
        let r = LocalUser { id: Uuid::new(), name, password, groups: Vec::new() };
        assert(r@.groups =~= Seq::<Seq<char>>::empty());
        r
    }
}

impl OwnerUser {
    /// An owner without groups, with a fresh identifier; `password` is the
    /// hash of the password.
    pub fn new(name: String, password: String) -> (r: Self)
        ensures
            r@.name == name@,
            r@.password == password@,
            r@.groups == Seq::<Seq<char>>::empty(),
            uuid_canonical(r@.id) == Some(r@.id),
    {
        let r = OwnerUser { id: Uuid::new(), name, password, groups: Vec::new() };
        assert(r@.groups =~= Seq::<Seq<char>>::empty());
        r
    }
}

impl OidcUser {
    /// An OIDC user without groups, with a fresh identifier.
    pub fn new(name: String) -> (r: Self)
        ensures
            r@.name == name@,
            r@.groups == Seq::<Seq<char>>::empty(),
            r@.oidc_groups == Seq::<Seq<char>>::empty(),
            uuid_canonical(r@.id) == Some(r@.id),
    {
        let r = OidcUser { id: Uuid::new(), name, groups: Vec::new(), oidc_groups: Vec::new() };
        assert(r@.groups =~= Seq::<Seq<char>>::empty());
        assert(r@.oidc_groups =~= Seq::<Seq<char>>::empty());
        r
    }
}

impl ApplicationUser {
    /// An application without groups, with a fresh identifier;
    /// `client_secret` is the hash of the client secret.
    pub fn new(name: String, owner: Uuid, client_id: String, client_secret: String) -> (r: Self)
        ensures
            r@.name == name@,
            r@.owner == owner@,
            r@.client_id == client_id@,
            r@.client_secret == client_secret@,
            r@.groups == Seq::<Seq<char>>::empty(),
            uuid_canonical(r@.id) == Some(r@.id),
    {
        let r = ApplicationUser {
            id: Uuid::new(),
            name,
            groups: Vec::new(),
            owner,
            client_id,
            client_secret,
        };
        assert(r@.groups =~= Seq::<Seq<char>>::empty());
        r
    }
}

/// Mathematical model of `User`.
pub enum UserView {
    Local(PasswordUserView),
    Owner(PasswordUserView),
    Oidc(OidcUserView),
    Application(ApplicationUserView),
}

impl UserView {
    /// The kind of the user.
    pub open spec fn kind(self) -> UserKind {
        match self {
            UserView::Local(_) => UserKind::Local,
            UserView::Owner(_) => UserKind::Owner,
            UserView::Oidc(_) => UserKind::Oidc,
            UserView::Application(_) => UserKind::Application,
        }
    }

    /// The identifier of the user.
    pub open spec fn id(self) -> Seq<char> {
        match self {
            UserView::Local(user) => user.id,
            UserView::Owner(user) => user.id,
            UserView::Oidc(user) => user.id,
            UserView::Application(user) => user.id,
        }
    }

    /// The name of the user.
    pub open spec fn name(self) -> Seq<char> {
        match self {
            UserView::Local(user) => user.name,
            UserView::Owner(user) => user.name,
            UserView::Oidc(user) => user.name,
            UserView::Application(user) => user.name,
        }
    }

    /// The groups of the user.
    pub open spec fn groups(self) -> Seq<Seq<char>> {
        match self {
            UserView::Local(user) => user.groups,
            UserView::Owner(user) => user.groups,
            UserView::Oidc(user) => user.groups,
            UserView::Application(user) => user.groups,
        }
    }

    /// The same user with another identifier.
    pub open spec fn with_id(self, id: Seq<char>) -> UserView {
        match self {
            UserView::Local(user) => UserView::Local(PasswordUserView { id, ..user }),
            UserView::Owner(user) => UserView::Owner(PasswordUserView { id, ..user }),
            UserView::Oidc(user) => UserView::Oidc(OidcUserView { id, ..user }),
            UserView::Application(user) => UserView::Application(ApplicationUserView { id, ..user }),
        }
    }

    /// The same user with another name.
    pub open spec fn with_name(self, name: Seq<char>) -> UserView {
        match self {
            UserView::Local(user) => UserView::Local(PasswordUserView { name, ..user }),
            UserView::Owner(user) => UserView::Owner(PasswordUserView { name, ..user }),
            UserView::Oidc(user) => UserView::Oidc(OidcUserView { name, ..user }),
            UserView::Application(user) => UserView::Application(
                ApplicationUserView { name, ..user },
            ),
        }
    }

    /// The same user with other groups.
    pub open spec fn with_groups(self, groups: Seq<Seq<char>>) -> UserView {
        match self {
            UserView::Local(user) => UserView::Local(PasswordUserView { groups, ..user }),
            UserView::Owner(user) => UserView::Owner(PasswordUserView { groups, ..user }),
            UserView::Oidc(user) => UserView::Oidc(OidcUserView { groups, ..user }),
            UserView::Application(user) => UserView::Application(
                ApplicationUserView { groups, ..user },
            ),
        }
    }

    /// The stored hash of the password, for the kinds that have one.
    pub open spec fn password_hash(self) -> Option<Seq<char>> {
        match self {
            UserView::Local(user) => Some(user.password),
            UserView::Owner(user) => Some(user.password),
            _ => None,
        }
    }

    /// The stored hash of the client secret, for the kind that has one.
    pub open spec fn client_secret_hash(self) -> Option<Seq<char>> {
        match self {
            UserView::Application(user) => Some(user.client_secret),
            _ => None,
        }
    }

    /// The same user with another password hash; unchanged for the kinds
    /// without one.
    pub open spec fn with_password_hash(self, password: Seq<char>) -> UserView {
        match self {
            UserView::Local(user) => UserView::Local(PasswordUserView { password, ..user }),
            UserView::Owner(user) => UserView::Owner(PasswordUserView { password, ..user }),
            _ => self,
        }
    }
}

/// A user of any kind.
#[derive(Debug)]
pub enum User {
    Local(LocalUser),
    Owner(OwnerUser),
    Oidc(OidcUser),
    Application(ApplicationUser),
}

impl View for User {
    type V = UserView;

    open spec fn view(&self) -> UserView {
        match self {
            User::Local(user) => UserView::Local(user@),
            User::Owner(user) => UserView::Owner(user@),
            User::Oidc(user) => UserView::Oidc(user@),
            User::Application(user) => UserView::Application(user@),
        }
    }
}

impl Clone for User {
    fn clone(&self) -> (r: Self)
        ensures
            r@ == self@,
    {
        match self {
            User::Local(user) => User::Local(user.clone()),
            User::Owner(user) => User::Owner(user.clone()),
            User::Oidc(user) => User::Oidc(user.clone()),
            User::Application(user) => User::Application(user.clone()),
        }
    }
}

/// The test that a group is not `group`.
pub open spec fn other_group(group: Seq<char>) -> spec_fn(Seq<char>) -> bool {
    |g: Seq<char>| g != group
}

/// What all kinds of user have in common.
pub trait UserMethods: Sized {
    /// The identifier as a mathematical value.
    spec fn id_of(&self) -> Seq<char>;

    /// The name as a mathematical value.
    spec fn name_of(&self) -> Seq<char>;

    /// The groups as a mathematical value.
    spec fn groups_of(&self) -> Seq<Seq<char>>;

    /// Identifier.
    fn id(&self) -> (r: Uuid)
        ensures
            r@ == self.id_of(),
    ;

    /// Name.
    fn name(&self) -> (r: String)
        ensures
            r@ == self.name_of(),
    ;

    /// Names of the groups that the user is in.
    fn groups(&self) -> (r: Vec<String>)
        ensures
            r.deep_view() == self.groups_of(),
    ;

    /// The same user with another identifier.
    fn with_id(self, id: Uuid) -> (r: Self)
        ensures
            r.id_of() == id@,
            r.name_of() == self.name_of(),
            r.groups_of() == self.groups_of(),
    ;

    /// The same user with another name.
    fn with_name(self, name: String) -> (r: Self)
        ensures
            r.id_of() == self.id_of(),
            r.name_of() == name@,
            r.groups_of() == self.groups_of(),
    ;

    /// The same user with other groups.
    fn with_groups(self, groups: Vec<String>) -> (r: Self)
        ensures
            r.id_of() == self.id_of(),
            r.name_of() == self.name_of(),
            r.groups_of() == groups.deep_view(),
    ;

    /// The same user, also in `group`: the group is added at the end, whether
    /// or not the user was in it.
    fn with_group(self, group: &str) -> (r: Self)
        ensures
            r.id_of() == self.id_of(),
            r.name_of() == self.name_of(),
            r.groups_of() == self.groups_of().push(group@),
    ;

    /// The same user, no longer in `group`: every occurrence is removed.
    fn without_group(self, group: &str) -> (r: Self)
        ensures
            r.id_of() == self.id_of(),
            r.name_of() == self.name_of(),
            r.groups_of() == self.groups_of().filter(other_group(group@)),
    ;
}

/// The strings of `groups` that differ from `group`, in their order.
fn groups_without(groups: &Vec<String>, group: &str) -> (r: Vec<String>)
    ensures
        r.deep_view() == groups.deep_view().filter(other_group(group@)),
{
    let ghost all = groups.deep_view();
    let ghost keep = other_group(group@);
    let mut out: Vec<String> = Vec::new();
    let mut i: usize = 0;
    assert(all.take(0).filter(keep) =~= Seq::<Seq<char>>::empty()) by {
        reveal(Seq::filter);
    }
    assert(out.deep_view() =~= Seq::<Seq<char>>::empty());
    while i < groups.len()
        invariant
            i <= groups.len(),
            all == groups.deep_view(),
            keep == other_group(group@),
            out.deep_view() == all.take(i as int).filter(keep),
        decreases groups.len() - i,
    {
        proof {
            reveal(Seq::filter);
            assert(all.take(i + 1).drop_last() =~= all.take(i as int));
            assert(all.take(i + 1).last() == groups[i as int]@);
        }
        if !str_eq(groups[i].as_str(), group) {
            let ghost before = out.deep_view();
            out.push(groups[i].clone());
            assert(out.deep_view() =~= before.push(groups[i as int]@));
        }
        i += 1;
    }
    assert(all.take(groups.len() as int) =~= all);
    out
}

impl UserMethods for User {
    open spec fn id_of(&self) -> Seq<char> {
        self@.id()
    }

    open spec fn name_of(&self) -> Seq<char> {
        self@.name()
    }

    open spec fn groups_of(&self) -> Seq<Seq<char>> {
        self@.groups()
    }

    fn id(&self) -> (r: Uuid) {
        match self {
            User::Local(user) => user.id(),
            User::Owner(user) => user.id(),
            User::Oidc(user) => user.id(),
            User::Application(user) => user.id(),
        }
    }

    fn name(&self) -> (r: String) {
        match self {
            User::Local(user) => user.name(),
            User::Owner(user) => user.name(),
            User::Oidc(user) => user.name(),
            User::Application(user) => user.name(),
        }
    }

    fn groups(&self) -> (r: Vec<String>) {
        match self {
            User::Local(user) => user.groups(),
            User::Owner(user) => user.groups(),
            User::Oidc(user) => user.groups(),
            User::Application(user) => user.groups(),
        }
    }

    fn with_id(self, id: Uuid) -> (r: Self)
        ensures
            r@ == self@.with_id(id@),
    {
        match self {
            User::Local(user) => User::Local(user.with_id(id)),
            User::Owner(user) => User::Owner(user.with_id(id)),
            User::Oidc(user) => User::Oidc(user.with_id(id)),
            User::Application(user) => User::Application(user.with_id(id)),
        }
    }

    fn with_name(self, name: String) -> (r: Self)
        ensures
            r@ == self@.with_name(name@),
    {
        match self {
            User::Local(user) => User::Local(user.with_name(name)),
            User::Owner(user) => User::Owner(user.with_name(name)),
            User::Oidc(user) => User::Oidc(user.with_name(name)),
            User::Application(user) => User::Application(user.with_name(name)),
        }
    }

    fn with_groups(self, groups: Vec<String>) -> (r: Self)
        ensures
            r@ == self@.with_groups(groups.deep_view()),
    {
        match self {
            User::Local(user) => User::Local(user.with_groups(groups)),
            User::Owner(user) => User::Owner(user.with_groups(groups)),
            User::Oidc(user) => User::Oidc(user.with_groups(groups)),
            User::Application(user) => User::Application(user.with_groups(groups)),
        }
    }

    fn with_group(self, group: &str) -> (r: Self)
        ensures
            r@ == self@.with_groups(self@.groups().push(group@)),
    {
        let mut current = self.groups();
        let ghost before = current.deep_view();
        current.push(String::from_str(group));
        assert(current.deep_view() =~= before.push(group@));
        self.with_groups(current)
    }

    fn without_group(self, group: &str) -> (r: Self)
        ensures
            r@ == self@.with_groups(self@.groups().filter(other_group(group@))),
    {
        let current = self.groups();
        let kept = groups_without(&current, group);
        self.with_groups(kept)
    }
}

impl Model for User {
    open spec fn model_id_of(&self) -> Seq<char> {
        self@.id()
    }

    fn collection() -> (r: &'static str)
        ensures
            r@ == "auth.users"@,
    {
        "auth.users"
    }

    fn model_id(&self) -> (r: Uuid) {
        self.id()
    }
}

/// The kinds of user that have a password, as a failure names them.
pub open spec fn password_kinds() -> Seq<char> {
    joined(seq![UserKind::Local.name_of(), UserKind::Owner.name_of()], ", "@)
}

/// The kind of user that has a client secret, as a failure names it.
pub open spec fn secret_kinds() -> Seq<char> {
    joined(seq![UserKind::Application.name_of()], ", "@)
}

/// What checking `value` against the stored hash `hashed` gives: whether it
/// matches, or `None` where the hash cannot be read or checked.
pub open spec fn check_of(value: Seq<char>, hashed: Seq<char>) -> Option<bool> {
    phc_verifies(value, hashed)
}

/// Whether `r` is what a check of `value` against `hashed` has to give: the
/// answer of the check, or a hashing failure where the check cannot be made.
pub open spec fn is_check_result(r: Result<bool, Error>, value: Seq<char>, hashed: Seq<char>) -> bool {
    match check_of(value, hashed) {
        Some(matches) => r == Ok::<bool, Error>(matches),
        None => r matches Err(Error::PasswordGeneration(_)),
    }
}

/// The failure of an operation that only users with a password support.
fn not_a_password_kind() -> (r: Error)
    ensures
        r matches Error::InvalidUserType(kinds) && kinds@ == password_kinds(),
{
    let mut expected: Vec<String> = Vec::new();
    expected.push(UserKind::Local.to_string());
    expected.push(UserKind::Owner.to_string());
    assert(expected.deep_view() =~= seq![UserKind::Local.name_of(), UserKind::Owner.name_of()]);
    Error::invalid_user_type(&expected)
}

/// The failure of an operation that only applications support.
fn not_an_application() -> (r: Error)
    ensures
        r matches Error::InvalidUserType(kinds) && kinds@ == secret_kinds(),
{
    let mut expected: Vec<String> = Vec::new();
    expected.push(UserKind::Application.to_string());
    assert(expected.deep_view() =~= seq![UserKind::Application.name_of()]);
    Error::invalid_user_type(&expected)
}

impl User {
    /// The kind of the user.
    pub fn kind(&self) -> (r: UserKind)
        ensures
            r == self@.kind(),
    {
        match self {
            User::Local(..) => UserKind::Local,
            User::Owner(..) => UserKind::Owner,
            User::Oidc(..) => UserKind::Oidc,
            User::Application(..) => UserKind::Application,
        }
    }

    /// Hashes `value` under a fresh random salt of 16 bytes.
    ///
    /// The hash accepts `value`. Fails with `Unknown` where no random bytes
    /// can be had, and with `PasswordGeneration` where the hashing fails.
    pub fn hash_value(value: &str) -> (r: Result<String, Error>)
        ensures
            match r {
                Ok(hashed) => check_of(value@, hashed@) == Some(true) && exists|salt: Seq<u8>|
                    salt.len() == 16 && #[trigger] argon2_phc(value@, salt) == Some(hashed@),
                Err(Error::PasswordGeneration(_)) => exists|salt: Seq<u8>|
                    salt.len() == 16 && #[trigger] argon2_phc(value@, salt) is None,
                Err(Error::Unknown(_)) => true,
                Err(_) => false,
            },
    {
        match random_bytes(16) {
            Some(salt) => Self::hash_with_salt(value, &salt),
            None => Err(Error::Unknown(String::from_str("no random bytes for a salt"))),
        }
    }

    /// Hashes `value` under the salt `salt`: the hash that Argon2 gives, which
    /// accepts `value`, or `PasswordGeneration` where Argon2 gives none. A salt
    /// of fewer than three bytes cannot be written as a salt string and is
    /// refused with `PasswordGeneration` as well.
    pub fn hash_with_salt(value: &str, salt: &Vec<u8>) -> (r: Result<String, Error>)
        ensures
            match r {
                Ok(hashed) => salt@.len() >= 3 && argon2_phc(value@, salt@) == Some(hashed@)
                    && check_of(value@, hashed@) == Some(true),
                Err(Error::PasswordGeneration(_)) => salt@.len() < 3 || argon2_phc(value@, salt@)
                    is None,
                Err(_) => false,
            },
    {
        if salt.len() < 3 {
            return Err(Error::PasswordGeneration(String::from_str("salt too short")));
        }
        match argon2_hash(value, salt) {
            Ok(hashed) => Ok(hashed),
            Err(cause) => Err(Error::PasswordGeneration(cause)),
        }
    }

    /// Checks `value` against the stored hash `hashed`: whether it matches, or
    /// `PasswordGeneration` where the hash cannot be read or checked.
    pub fn verify_value(value: &str, hashed: &str) -> (r: Result<bool, Error>)
        ensures
            is_check_result(r, value@, hashed@),
    {
        match argon2_verify(value, hashed) {
            Ok(matches) => Ok(matches),
            Err(cause) => Err(Error::PasswordGeneration(cause)),
        }
    }

    /// A new local user `username` whose password is `password`.
    pub fn create_local(username: &str, password: &str) -> (r: Result<Self, Error>)
        ensures
            match r {
                Ok(user) => {
                    &&& user@ matches UserView::Local(local)
                    &&& local.name == username@
                    &&& check_of(password@, local.password) == Some(true)
                    &&& local.groups == Seq::<Seq<char>>::empty()
                    &&& uuid_canonical(local.id) == Some(local.id)
                },
                Err(Error::PasswordGeneration(_)) => true,
                Err(Error::Unknown(_)) => true,
                Err(_) => false,
            },
    {
        match Self::hash_value(password) {
            Ok(hashed) => Ok(User::Local(LocalUser::new(String::from_str(username), hashed))),
            Err(error) => Err(error),
        }
    }

    /// A new owner `username` whose password is `password`.
    pub fn create_owner(username: &str, password: &str) -> (r: Result<Self, Error>)
        ensures
            match r {
                Ok(user) => {
                    &&& user@ matches UserView::Owner(owner)
                    &&& owner.name == username@
                    &&& check_of(password@, owner.password) == Some(true)
                    &&& owner.groups == Seq::<Seq<char>>::empty()
                    &&& uuid_canonical(owner.id) == Some(owner.id)
                },
                Err(Error::PasswordGeneration(_)) => true,
                Err(Error::Unknown(_)) => true,
                Err(_) => false,
            },
    {
        match Self::hash_value(password) {
            Ok(hashed) => Ok(User::Owner(OwnerUser::new(String::from_str(username), hashed))),
            Err(error) => Err(error),
        }
    }

    /// A new application `name` of the user `owner`, and its client secret.
    ///
    /// The client id is the URL-safe base64 text of 32 random bytes, the
    /// secret that of 64 random bytes. The application stores only the hash of
    /// the secret; the secret itself is handed out here and nowhere else.
    pub fn create_application(name: &str, owner: Uuid) -> (r: Result<(Self, String), Error>)
        ensures
            match r {
                Ok((user, secret)) => {
                    &&& user@ matches UserView::Application(application)
                    &&& application.name == name@
                    &&& application.owner == owner@
                    &&& application.groups == Seq::<Seq<char>>::empty()
                    &&& uuid_canonical(application.id) == Some(application.id)
                    &&& check_of(secret@, application.client_secret) == Some(true)
                    &&& exists|bytes: Seq<u8>|
                        bytes.len() == 32 && application.client_id == #[trigger] base64_url_text(
                            bytes,
                        )
                    &&& exists|bytes: Seq<u8>|
                        bytes.len() == 64 && secret@ == #[trigger] base64_url_text(bytes)
                },
                Err(Error::PasswordGeneration(_)) => true,
                Err(Error::Unknown(_)) => true,
                Err(_) => false,
            },
    {
        let id_bytes = match random_bytes(32) {
            Some(bytes) => bytes,
            None => {
                return Err(Error::Unknown(String::from_str("no random bytes for a client id")));
            },
        };
        let secret_bytes = match random_bytes(64) {
            Some(bytes) => bytes,
            None => {
                return Err(Error::Unknown(String::from_str("no random bytes for a client secret")));
            },
        };
        let client_id = base64_url(&id_bytes);
        let client_secret = base64_url(&secret_bytes);
        match Self::hash_value(client_secret.as_str()) {
            Ok(hashed) => {
                let application = ApplicationUser::new(
                    String::from_str(name),
                    owner,
                    client_id,
                    hashed,
                );
                Ok((User::Application(application), client_secret))
            },
            Err(error) => Err(error),
        }
    }

    /// Checks `password` against the stored hash of a local user or owner.
    ///
    /// Fails with `InvalidUserType`, naming `local, owner`, for the other
    /// kinds, and with `PasswordGeneration` where the stored hash cannot be
    /// read or checked.
    pub fn verify_password(&self, password: &str) -> (r: Result<bool, Error>)
        ensures
            is_password_check(self@, password@, r),
    {
        match self {
            User::Local(user) => Self::verify_value(password, user.password().as_str()),
            User::Owner(user) => Self::verify_value(password, user.password().as_str()),
            _ => Err(not_a_password_kind()),
        }
    }

    /// Checks `secret` against the stored hash of an application.
    ///
    /// Fails with `InvalidUserType`, naming `application`, for the other
    /// kinds, and with `PasswordGeneration` where the stored hash cannot be
    /// read or checked.
    pub fn verify_client_secret(&self, secret: &str) -> (r: Result<bool, Error>)
        ensures
            match self@.client_secret_hash() {
                Some(hashed) => is_check_result(r, secret@, hashed),
                None => r matches Err(Error::InvalidUserType(kinds)) && kinds@ == secret_kinds(),
            },
    {
        match self {
            User::Application(user) => Self::verify_value(secret, user.client_secret().as_str()),
            _ => Err(not_an_application()),
        }
    }

    /// The same local user or owner with `new_password` as its password: the
    /// stored hash is replaced by a fresh one that accepts `new_password`.
    ///
    /// Fails with `InvalidUserType`, naming `local, owner`, for the other
    /// kinds; for a local user or owner it fails only where the hashing does.
    pub fn with_password(self, new_password: &str) -> (r: Result<Self, Error>)
        ensures
            match self@.password_hash() {
                Some(_) => match r {
                    Ok(user) => exists|hashed: Seq<char>|
                        #![trigger self@.with_password_hash(hashed)]
                        user@ == self@.with_password_hash(hashed) && check_of(
                            new_password@,
                            hashed,
                        ) == Some(true),
                    Err(Error::PasswordGeneration(_)) => true,
                    Err(Error::Unknown(_)) => true,
                    Err(_) => false,
                },
                None => r matches Err(Error::InvalidUserType(kinds)) && kinds@ == password_kinds(),
            },
    {
        match self {
            User::Local(user) => match Self::hash_value(new_password) {
                Ok(hashed) => {
                    let ghost before = User::Local(user)@;
                    let changed = User::Local(user.with_password(hashed));
                    assert(changed@ == before.with_password_hash(hashed@));
                    Ok(changed)
                },
                Err(error) => Err(error),
            },
            User::Owner(user) => match Self::hash_value(new_password) {
                Ok(hashed) => {
                    let ghost before = User::Owner(user)@;
                    let changed = User::Owner(user.with_password(hashed));
                    assert(changed@ == before.with_password_hash(hashed@));
                    Ok(changed)
                },
                Err(error) => Err(error),
            },
            _ => Err(not_a_password_kind()),
        }
    }
}

/// Whether `answer` is what the check of `password` against `user` has to
/// give: the answer of the check against the stored hash for a local user or
/// owner, and an invalid user type that names `local, owner` for the rest.
pub open spec fn is_password_check(user: UserView, password: Seq<char>, answer: Result<bool, Error>) -> bool {
    match user.password_hash() {
        Some(hashed) => is_check_result(answer, password, hashed),
        None => answer matches Err(Error::InvalidUserType(kinds)) && kinds@ == password_kinds(),
    }
}

/// A user whose stored hash accepts a password, as the hash of a user just
/// made with that password does, passes the check of that password.
pub proof fn lemma_accepted_password_passes(
    user: UserView,
    password: Seq<char>,
    answer: Result<bool, Error>,
)
    requires
        user.password_hash() matches Some(hashed) && check_of(password, hashed) == Some(true),
        is_password_check(user, password, answer),
    ensures
        answer == Ok::<bool, Error>(true),
{
}

/// The check of a password against an application or an OIDC user fails with
/// an invalid user type, whatever the password.
pub proof fn lemma_wrong_kind_fails(user: UserView, password: Seq<char>, answer: Result<bool, Error>)
    requires
        user is Application || user is Oidc,
        is_password_check(user, password, answer),
    ensures
        answer matches Err(Error::InvalidUserType(kinds)) && kinds@ == password_kinds(),
{
}

/// The kinds that a failure names are written `local, owner` and
/// `application`.
pub proof fn lemma_password_kinds_text()
    ensures
        password_kinds() == "local, owner"@,
        secret_kinds() == "application"@,
{
    reveal_strlit("local");
    reveal_strlit("owner");
    reveal_strlit(", ");
    reveal_strlit("local, owner");
    reveal_strlit("application");
    let parts = seq![UserKind::Local.name_of(), UserKind::Owner.name_of()];
    assert(parts.drop_last() =~= seq![UserKind::Local.name_of()]);
    assert(joined(parts.drop_last(), ", "@) == "local"@);
    assert(password_kinds() =~= "local, owner"@);
}

} // verus!
