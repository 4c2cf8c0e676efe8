//! Capability levels, permission grants and permission sets.

use vstd::prelude::*;
use vstd::std_specs::cmp::PartialEqSpecImpl;
use vstd::std_specs::convert::{FromSpec, FromSpecImpl};
use crate::types::str_uuid::Uuid;

verus! {

/// Strength of access that a grant carries, ordered `Read < Edit < Manage`.
#[derive(Clone, Copy, Debug, PartialEq, Eq, Structural)]
pub enum PermissionCapability {
    /// View an existing resource.
    Read,
    /// Edit an existing resource.
    Edit,
    /// Create or destroy a resource.
    Manage,
}

impl PermissionCapability {
    /// Position of the level in the order: 0 for `Read`, 1 for `Edit`, 2 for `Manage`.
    pub open spec fn rank(self) -> nat {
        match self {
            PermissionCapability::Read => 0,
            PermissionCapability::Edit => 1,
            PermissionCapability::Manage => 2,
        }
    }

    /// Whether a holder of `self` may do what `capability` asks for.
    pub open spec fn satisfies(self, capability: PermissionCapability) -> bool {
        capability.rank() <= self.rank()
    }

    /// Whether this level is at least as strong as `capability`.
    pub fn has_at_least(&self, capability: PermissionCapability) -> (r: bool)
        ensures
            r == self.satisfies(capability),
    {
        match capability {
            PermissionCapability::Read => true,
            PermissionCapability::Edit => *self != PermissionCapability::Read,
            PermissionCapability::Manage => *self == PermissionCapability::Manage,
        }
    }
}

/// Between two levels in order, the stronger satisfies the weaker, and the
/// weaker satisfies the stronger only where they are the same level.
pub proof fn lemma_capability_monotone(a: PermissionCapability, b: PermissionCapability)
    requires
        a.rank() <= b.rank(),
    ensures
        b.satisfies(a),
        a.satisfies(b) <==> a == b,
{
}

/// The order of the levels is total and has no cycle.
pub proof fn lemma_capability_total_order(
    a: PermissionCapability,
    b: PermissionCapability,
    c: PermissionCapability,
)
    ensures
        a.satisfies(a),
        a.satisfies(b) || b.satisfies(a),
        a.satisfies(b) && b.satisfies(a) ==> a == b,
        a.satisfies(b) && b.satisfies(c) ==> a.satisfies(c),
{
}

/// Mathematical model of `RootTopLevel`.
pub enum RootTopLevelView {
    Root,
    Home { parent: Seq<char> },
    Directory { path: Seq<char> },
}

/// The top-level directory that a root-directory grant applies to.
#[derive(Debug, Eq)]
pub enum RootTopLevel {
    /// The root itself.
    Root,
    /// A home directory under `parent`.
    Home { parent: String },
    /// The directory at `path`.
    Directory { path: String },
}

impl View for RootTopLevel {
    type V = RootTopLevelView;

    open spec fn view(&self) -> RootTopLevelView {
        match self {
            RootTopLevel::Root => RootTopLevelView::Root,
            RootTopLevel::Home { parent } => RootTopLevelView::Home { parent: parent@ },
            RootTopLevel::Directory { path } => RootTopLevelView::Directory { path: path@ },
        }
    }
}

impl Clone for RootTopLevel {
    fn clone(&self) -> (r: Self)
        ensures
            r@ == self@,
    {
        match self {
            RootTopLevel::Root => RootTopLevel::Root,
            RootTopLevel::Home { parent } => RootTopLevel::Home { parent: parent.clone() },
            RootTopLevel::Directory { path } => RootTopLevel::Directory { path: path.clone() },
        }
    }
}

impl PartialEq for RootTopLevel {
    fn eq(&self, other: &Self) -> (r: bool) {
        match (self, other) {
            (RootTopLevel::Root, RootTopLevel::Root) => true,
            (RootTopLevel::Home { parent: a }, RootTopLevel::Home { parent: b }) => *a == *b,
            (RootTopLevel::Directory { path: a }, RootTopLevel::Directory { path: b }) => *a == *b,
            _ => false,
        }
    }
}

impl PartialEqSpecImpl for RootTopLevel {
    open spec fn obeys_eq_spec() -> bool {
        true
    }

    open spec fn eq_spec(&self, other: &Self) -> bool {
        self@ == other@
    }
}

/// What a grant is about.
#[derive(Clone, Copy, Debug, PartialEq, Eq, Structural)]
pub enum PermissionKind {
    Administrator,
    Invites,
    UploadTargets,
    RootDirectory,
}

/// Mathematical model of `Permission`.
pub enum PermissionView {
    Administrator,
    Invites { root: Seq<char>, capability: PermissionCapability, administrate: bool },
    UploadTargets { root: Seq<char>, capability: PermissionCapability, administrate: bool },
    RootDirectory { root: Seq<char>, top_level: RootTopLevelView, capability: PermissionCapability },
}

impl PermissionView {
    /// What the grant is about.
    pub open spec fn kind(self) -> PermissionKind {
        match self {
            PermissionView::Administrator => PermissionKind::Administrator,
            PermissionView::Invites { .. } => PermissionKind::Invites,
            PermissionView::UploadTargets { .. } => PermissionKind::UploadTargets,
            PermissionView::RootDirectory { .. } => PermissionKind::RootDirectory,
        }
    }

    /// The level that the grant carries; `Manage` for the administrator.
    pub open spec fn capability(self) -> PermissionCapability {
        match self {
            PermissionView::Administrator => PermissionCapability::Manage,
            PermissionView::Invites { capability, .. } => capability,
            PermissionView::UploadTargets { capability, .. } => capability,
            PermissionView::RootDirectory { capability, .. } => capability,
        }
    }

    /// The resource root that the grant is scoped to; none for the administrator.
    pub open spec fn root(self) -> Option<Seq<char>> {
        match self {
            PermissionView::Administrator => None,
            PermissionView::Invites { root, .. } => Some(root),
            PermissionView::UploadTargets { root, .. } => Some(root),
            PermissionView::RootDirectory { root, .. } => Some(root),
        }
    }

    /// Whether the grant extends to resources of other users: always for the
    /// administrator, never for a root directory.
    pub open spec fn administrate(self) -> bool {
        match self {
            PermissionView::Administrator => true,
            PermissionView::Invites { administrate, .. } => administrate,
            PermissionView::UploadTargets { administrate, .. } => administrate,
            PermissionView::RootDirectory { .. } => false,
        }
    }

    /// Whether the two grants have the same scope: the same kind and root.
    pub open spec fn same_scope(self, other: PermissionView) -> bool {
        self.kind() == other.kind() && self.root() == other.root()
    }

    /// Whether this grant, as a stored one, covers what `requested` asks for:
    /// the same scope and administrate flag, and a level at least as strong.
    pub open spec fn covers(self, requested: PermissionView) -> bool {
        &&& self.same_scope(requested)
        &&& self.administrate() == requested.administrate()
        &&& self.capability().satisfies(requested.capability())
    }
}

/// A grant.
#[derive(Debug, Eq)]
pub enum Permission {
    /// Supersedes all other grants.
    Administrator,
    /// Management of invites to `root`.
    Invites { root: Uuid, capability: PermissionCapability, administrate: bool },
    /// Management of upload targets for `root`.
    UploadTargets { root: Uuid, capability: PermissionCapability, administrate: bool },
    /// Access to a directory of `root`.
    RootDirectory { root: Uuid, top_level: RootTopLevel, capability: PermissionCapability },
}

impl View for Permission {
    type V = PermissionView;

    open spec fn view(&self) -> PermissionView {
        match self {
            Permission::Administrator => PermissionView::Administrator,
            Permission::Invites { root, capability, administrate } => PermissionView::Invites {
                root: root@,
                capability: *capability,
                administrate: *administrate,
            },
            Permission::UploadTargets {
                root,
                capability,
                administrate,
            } => PermissionView::UploadTargets {
                root: root@,
                capability: *capability,
                administrate: *administrate,
            },
            Permission::RootDirectory { root, top_level, capability } => PermissionView::RootDirectory {
                root: root@,
                top_level: top_level@,
                capability: *capability,
            },
        }
    }
}

impl Clone for Permission {
    fn clone(&self) -> (r: Self)
        ensures
            r@ == self@,
    {
        match self {
            Permission::Administrator => Permission::Administrator,
            Permission::Invites { root, capability, administrate } => Permission::Invites {
                root: root.clone(),
                capability: *capability,
                administrate: *administrate,
            },
            Permission::UploadTargets { root, capability, administrate } => Permission::UploadTargets {
                root: root.clone(),
                capability: *capability,
                administrate: *administrate,
            },
            Permission::RootDirectory { root, top_level, capability } => Permission::RootDirectory {
                root: root.clone(),
                top_level: top_level.clone(),
                capability: *capability,
            },
        }
    }
}

impl PartialEq for Permission {
    fn eq(&self, other: &Self) -> (r: bool) {
        match (self, other) {
            (Permission::Administrator, Permission::Administrator) => true,
            (
                Permission::Invites { root: r1, capability: c1, administrate: a1 },
                Permission::Invites { root: r2, capability: c2, administrate: a2 },
            ) => *r1 == *r2 && *c1 == *c2 && *a1 == *a2,
            (
                Permission::UploadTargets { root: r1, capability: c1, administrate: a1 },
                Permission::UploadTargets { root: r2, capability: c2, administrate: a2 },
            ) => *r1 == *r2 && *c1 == *c2 && *a1 == *a2,
            (
                Permission::RootDirectory { root: r1, top_level: t1, capability: c1 },
                Permission::RootDirectory { root: r2, top_level: t2, capability: c2 },
            ) => *r1 == *r2 && *t1 == *t2 && *c1 == *c2,
            _ => false,
        }
    }
}

impl PartialEqSpecImpl for Permission {
    open spec fn obeys_eq_spec() -> bool {
        true
    }

    open spec fn eq_spec(&self, other: &Self) -> bool {
        self@ == other@
    }
}

impl Permission {
    /// What the grant is about.
    pub fn kind(&self) -> (r: PermissionKind)
        ensures
            r == self@.kind(),
    {
        match self {
            Permission::Administrator => PermissionKind::Administrator,
            Permission::Invites { .. } => PermissionKind::Invites,
            Permission::UploadTargets { .. } => PermissionKind::UploadTargets,
            Permission::RootDirectory { .. } => PermissionKind::RootDirectory,
        }
    }

    /// The level that the grant carries; `Manage` for the administrator.
    pub fn capability(&self) -> (r: PermissionCapability)
        ensures
            r == self@.capability(),
    {
        match self {
            Permission::Administrator => PermissionCapability::Manage,
            Permission::Invites { capability, .. } => *capability,
            Permission::UploadTargets { capability, .. } => *capability,
            Permission::RootDirectory { capability, .. } => *capability,
        }
    }

    /// The resource root that the grant is scoped to; none for the administrator.
    pub fn root(&self) -> (r: Option<Uuid>)
        ensures
            r.deep_view() == self@.root(),
    {
        match self {
            Permission::Administrator => None,
            Permission::Invites { root, .. } => Some(root.clone()),
            Permission::UploadTargets { root, .. } => Some(root.clone()),
            Permission::RootDirectory { root, .. } => Some(root.clone()),
        }
    }

    /// Whether the grant extends to resources of other users.
    pub fn administrate(&self) -> (r: bool)
        ensures
            r == self@.administrate(),
    {
        match self {
            Permission::Administrator => true,
            Permission::Invites { administrate, .. } => *administrate,
            Permission::UploadTargets { administrate, .. } => *administrate,
            Permission::RootDirectory { .. } => false,
        }
    }
}

impl Permission {
    /// Whether the two grants have the same kind and root.
    pub fn same_scope(&self, other: &Permission) -> (r: bool)
        ensures
            r == self@.same_scope(other@),
    {
        match (self, other) {
            (Permission::Administrator, Permission::Administrator) => true,
            (Permission::Invites { root: a, .. }, Permission::Invites { root: b, .. }) => *a == *b,
            (Permission::UploadTargets { root: a, .. }, Permission::UploadTargets { root: b, .. }) => *a
                == *b,
            (Permission::RootDirectory { root: a, .. }, Permission::RootDirectory { root: b, .. }) => *a
                == *b,
            _ => false,
        }
    }

    /// Whether this grant, as a stored one, covers what `requested` asks for.
    pub fn covers(&self, requested: &Permission) -> (r: bool)
        ensures
            r == self@.covers(requested@),
    {
        self.same_scope(requested) && self.administrate() == requested.administrate()
            && self.capability().has_at_least(requested.capability())
    }
}

/// The views of a list of grants, in order.
pub open spec fn grants_view(grants: Seq<Permission>) -> Seq<PermissionView> {
    grants.map_values(|p: Permission| p@)
}

/// The test that a grant has another scope than `permission`.
pub open spec fn outside_scope(permission: PermissionView) -> spec_fn(PermissionView) -> bool {
    |g: PermissionView| !g.same_scope(permission)
}

/// The test that a grant has the scope of `permission`.
pub open spec fn in_scope(permission: PermissionView) -> spec_fn(PermissionView) -> bool {
    |g: PermissionView| g.same_scope(permission)
}

/// The test that a grant differs from `permission`.
pub open spec fn differs_from(permission: PermissionView) -> spec_fn(PermissionView) -> bool {
    |g: PermissionView| g != permission
}

/// The grants after `permission` was set: the administrator grant alone where
/// `permission` is the administrator grant; else the grants of other scopes in
/// their order, then `permission`.
pub open spec fn with_grant(grants: Seq<PermissionView>, permission: PermissionView) -> Seq<
    PermissionView,
> {
    if permission is Administrator {
        seq![PermissionView::Administrator]
    } else {
        grants.filter(outside_scope(permission)).push(permission)
    }
}

/// The grants after `permission` was removed: those that differ from it, in
/// their order.
pub open spec fn without_grant(grants: Seq<PermissionView>, permission: PermissionView) -> Seq<
    PermissionView,
> {
    grants.filter(differs_from(permission))
}

/// Whether the administrator grant is among `grants`.
pub open spec fn has_administrator(grants: Seq<PermissionView>) -> bool {
    grants.contains(PermissionView::Administrator)
}

/// Whether `grants` allow what `requested` asks for: the administrator grant
/// allows everything; else some grant has to cover the request.
pub open spec fn allows(grants: Seq<PermissionView>, requested: PermissionView) -> bool {
    has_administrator(grants) || exists|i: int|
        0 <= i < grants.len() && (#[trigger] grants[i]).covers(requested)
}

/// Whether no two of `grants` have the same scope.
pub open spec fn scopes_distinct(grants: Seq<PermissionView>) -> bool {
    forall|i: int, j: int|
        0 <= i < j < grants.len() ==> !(#[trigger] grants[i]).same_scope(#[trigger] grants[j])
}

/// The grants of a user or group, in the order in which they were set.
#[derive(Debug)]
pub struct PermissionSet {
    grants: Vec<Permission>,
}

impl View for PermissionSet {
    type V = Seq<PermissionView>;

    closed spec fn view(&self) -> Seq<PermissionView> {
        grants_view(self.grants@)
    }
}

impl Clone for PermissionSet {
    fn clone(&self) -> (r: Self)
        ensures
            r@ == self@,
    {
        PermissionSet { grants: copy_grants(&self.grants) }
    }
}

/// A copy of `grants`.
fn copy_grants(grants: &Vec<Permission>) -> (r: Vec<Permission>)
    ensures
        grants_view(r@) == grants_view(grants@),
{
    let mut out: Vec<Permission> = Vec::new();
    let mut i: usize = 0;
    while i < grants.len()
        invariant
            i <= grants.len(),
            out.len() == i,
            forall|j: int| 0 <= j < i ==> out[j]@ == grants[j]@,
        decreases grants.len() - i,
    {
        out.push(grants[i].clone());
        i += 1;
    }
    assert(grants_view(out@) =~= grants_view(grants@));
    out
}

/// The grants that `keep` holds of, in their order, where `keep` is decided by
/// comparing each grant with `permission`: by scope where `by_scope` is set,
/// else by equality.
fn retained(grants: &Vec<Permission>, permission: &Permission, by_scope: bool) -> (r: Vec<Permission>)
    ensures
        by_scope ==> grants_view(r@) == grants_view(grants@).filter(outside_scope(permission@)),
        !by_scope ==> grants_view(r@) == grants_view(grants@).filter(differs_from(permission@)),
{
    let ghost all = grants_view(grants@);
    let ghost keep = if by_scope {
        outside_scope(permission@)
    } else {
        differs_from(permission@)
    };
    let mut out: Vec<Permission> = Vec::new();
    let mut i: usize = 0;
    assert(all.take(0).filter(keep) =~= Seq::<PermissionView>::empty()) by {
        reveal(Seq::filter);
    }
    while i < grants.len()
        invariant
            i <= grants.len(),
            all == grants_view(grants@),
            by_scope ==> keep == outside_scope(permission@),
            !by_scope ==> keep == differs_from(permission@),
            grants_view(out@) == all.take(i as int).filter(keep),
        decreases grants.len() - i,
    {
        let grant = &grants[i];
        let drop = if by_scope {
            grant.same_scope(permission)
        } else {
            *grant == *permission
        };
        proof {
            reveal(Seq::filter);
            assert(all.take(i + 1).drop_last() =~= all.take(i as int));
            assert(all.take(i + 1).last() == grant@);
            assert(keep(grant@) == !drop);
        }
        if !drop {
            let ghost before = grants_view(out@);
            out.push(grant.clone());
            assert(grants_view(out@) =~= before.push(grant@));
        }
        i += 1;
    }
    assert(all.take(grants.len() as int) =~= all);
    out
}

impl PermissionSet {
    /// A set without grants.
    pub fn new() -> (r: Self)
        ensures
            r@ == Seq::<PermissionView>::empty(),
    {
        let r = PermissionSet { grants: Vec::new() };
        assert(r@ =~= Seq::<PermissionView>::empty());
        r
    }

    /// The grants in their order.
    pub fn into(self) -> (r: Vec<Permission>)
        ensures
            grants_view(r@) == self@,
    {
        self.grants
    }

    /// Grants `permission`. The administrator grant replaces all grants; any
    /// other grant replaces the grants of its scope and leaves the rest,
    /// an administrator grant among them, where they were.
    pub fn set_permission(&mut self, permission: Permission)
        ensures
            final(self)@ == with_grant(old(self)@, permission@),
    {
        match permission {
            Permission::Administrator => {
                self.grants.clear();
                self.grants.push(Permission::Administrator);
                assert(self@ =~= seq![PermissionView::Administrator]);
            },
            _ => {
                let mut kept = retained(&self.grants, &permission, true);
                let ghost before = grants_view(kept@);
                let ghost added = permission@;
                kept.push(permission);
                assert(grants_view(kept@) =~= before.push(added));
                self.grants = kept;
            },
        }
    }

    /// Removes every grant that equals `permission`.
    pub fn remove_permission(&mut self, permission: Permission)
        ensures
            final(self)@ == without_grant(old(self)@, permission@),
    {
        let kept = retained(&self.grants, &permission, false);
        self.grants = kept;
    }

    /// Whether the administrator grant is in the set.
    pub fn is_administrator(&self) -> (r: bool)
        ensures
            r == has_administrator(self@),
    {
        let mut i: usize = 0;
        while i < self.grants.len()
            invariant
                i <= self.grants.len(),
                forall|j: int| 0 <= j < i ==> !(#[trigger] self@[j] is Administrator),
            decreases self.grants.len() - i,
        {
            match self.grants[i] {
                Permission::Administrator => {
                    assert(self@[i as int] == PermissionView::Administrator);
                    return true;
                },
                _ => {},
            }
            i += 1;
        }
        assert(forall|j: int| 0 <= j < self@.len() ==> self@[j] != PermissionView::Administrator);
        false
    }

    /// Whether the set allows what `permission` asks for.
    pub fn has_permission(&self, permission: Permission) -> (r: bool)
        ensures
            r == allows(self@, permission@),
    {
        if self.is_administrator() {
            return true;
        }
        let mut i: usize = 0;
        while i < self.grants.len()
            invariant
                i <= self.grants.len(),
                !has_administrator(self@),
                forall|j: int| 0 <= j < i ==> !(#[trigger] self@[j]).covers(permission@),
            decreases self.grants.len() - i,
        {
            if self.grants[i].covers(&permission) {
                assert(self@[i as int].covers(permission@));
                return true;
            }
            i += 1;
        }
        false
    }
}

impl From<Vec<Permission>> for PermissionSet {
    /// A set that holds `grants` as they are, in their order.
    fn from(grants: Vec<Permission>) -> (r: Self) {
        PermissionSet { grants }
    }
}

impl FromSpecImpl<Vec<Permission>> for PermissionSet {
    open spec fn obeys_from_spec() -> bool {
        true
    }

    closed spec fn from_spec(grants: Vec<Permission>) -> Self {
        PermissionSet { grants }
    }
}

/// The set made from a list of grants holds the grants as they are, in their
/// order.
pub proof fn lemma_from_keeps_grants(grants: Vec<Permission>)
    ensures
        <PermissionSet as FromSpec<Vec<Permission>>>::from_spec(grants)@ == grants_view(grants@),
{
}

impl Default for PermissionSet {
    fn default() -> (r: Self)
        ensures
            r@ == Seq::<PermissionView>::empty(),
    {
        PermissionSet::new()
    }
}

/// The grants of the scope of `permission` among `grants`, in their order.
pub open spec fn of_scope(grants: Seq<PermissionView>, permission: PermissionView) -> Seq<
    PermissionView,
> {
    grants.filter(in_scope(permission))
}

/// Whether `grants` hold at most one grant of each scope.
pub open spec fn one_per_scope(grants: Seq<PermissionView>) -> bool {
    forall|p: PermissionView| (#[trigger] of_scope(grants, p)).len() <= 1
}

/// Filtering by one test and then by another keeps what passes both.
proof fn lemma_filter_twice(
    s: Seq<PermissionView>,
    a: spec_fn(PermissionView) -> bool,
    b: spec_fn(PermissionView) -> bool,
)
    ensures
        s.filter(a).filter(b) == s.filter(|g: PermissionView| a(g) && b(g)),
    decreases s.len(),
{
    reveal(Seq::filter);
    if s.len() > 0 {
        let rest = s.drop_last();
        let last = s.last();
        lemma_filter_twice(rest, a, b);
        if a(last) {
            assert(s.filter(a).drop_last() =~= rest.filter(a));
            assert(s.filter(a).last() == last);
        }
    }
}

/// Two tests that agree on every grant keep the same grants.
proof fn lemma_filter_same(
    s: Seq<PermissionView>,
    a: spec_fn(PermissionView) -> bool,
    b: spec_fn(PermissionView) -> bool,
)
    requires
        forall|g: PermissionView| #[trigger] a(g) == b(g),
    ensures
        s.filter(a) == s.filter(b),
    decreases s.len(),
{
    reveal(Seq::filter);
    if s.len() > 0 {
        lemma_filter_same(s.drop_last(), a, b);
    }
}

/// A test that no grant passes keeps nothing.
proof fn lemma_filter_none(s: Seq<PermissionView>, a: spec_fn(PermissionView) -> bool)
    requires
        forall|g: PermissionView| !#[trigger] a(g),
    ensures
        s.filter(a) == Seq::<PermissionView>::empty(),
    decreases s.len(),
{
    reveal(Seq::filter);
    if s.len() > 0 {
        lemma_filter_none(s.drop_last(), a);
    }
}

/// After `permission` was set, it is the one grant of its scope.
pub proof fn lemma_set_is_sole_of_scope(grants: Seq<PermissionView>, permission: PermissionView)
    ensures
        of_scope(with_grant(grants, permission), permission) == seq![permission],
{
    reveal(Seq::filter);
    let same = in_scope(permission);
    if permission is Administrator {
        let only = seq![PermissionView::Administrator];
        assert(only.drop_last() =~= Seq::<PermissionView>::empty());
        assert(only.filter(same) =~= seq![permission]);
    } else {
        let other = outside_scope(permission);
        let kept = grants.filter(other);
        let after = kept.push(permission);
        assert(after.drop_last() =~= kept);
        lemma_filter_twice(grants, other, same);
        lemma_filter_none(grants, |g: PermissionView| other(g) && same(g));
        assert(after.filter(same) =~= seq![permission]);
    }
}

/// The first grant of a set is alone in it.
pub proof fn lemma_first_grant_is_alone(permission: PermissionView)
    ensures
        with_grant(Seq::empty(), permission) == seq![permission],
{
    reveal(Seq::filter);
    assert(Seq::<PermissionView>::empty().filter(outside_scope(permission)) =~= Seq::<
        PermissionView,
    >::empty());
    assert(with_grant(Seq::empty(), permission) =~= seq![permission]);
}

/// Setting two grants of one scope, one after the other, leaves exactly one
/// grant of that scope: the second.
pub proof fn lemma_scope_replacement(
    grants: Seq<PermissionView>,
    first: PermissionView,
    second: PermissionView,
)
    requires
        first.same_scope(second),
    ensures
        of_scope(with_grant(with_grant(grants, first), second), second) == seq![second],
{
    lemma_set_is_sole_of_scope(with_grant(grants, first), second);
}

/// Setting a grant keeps the grants at one per scope.
pub proof fn lemma_set_keeps_one_per_scope(grants: Seq<PermissionView>, permission: PermissionView)
    requires
        one_per_scope(grants),
    ensures
        one_per_scope(with_grant(grants, permission)),
{
    let after = with_grant(grants, permission);
    assert forall|p: PermissionView| (#[trigger] of_scope(after, p)).len() <= 1 by {
        let same_p = in_scope(p);
        if permission.same_scope(p) {
            lemma_set_is_sole_of_scope(grants, permission);
            lemma_filter_same(after, same_p, in_scope(permission));
        } else if permission is Administrator {
            reveal(Seq::filter);
            assert(after.drop_last() =~= Seq::<PermissionView>::empty());
        } else {
            reveal(Seq::filter);
            let other = outside_scope(permission);
            let kept = grants.filter(other);
            assert(after.drop_last() =~= kept);
            assert(after.filter(same_p) == kept.filter(same_p));
            lemma_filter_twice(grants, other, same_p);
            lemma_filter_twice(grants, same_p, other);
            lemma_filter_same(
                grants,
                |g: PermissionView| other(g) && same_p(g),
                |g: PermissionView| same_p(g) && other(g),
            );
            assert(of_scope(grants, p).len() <= 1);
            of_scope(grants, p).lemma_filter_len(other);
        }
    }
}

/// Removing a grant keeps the grants at one per scope.
pub proof fn lemma_remove_keeps_one_per_scope(
    grants: Seq<PermissionView>,
    permission: PermissionView,
)
    requires
        one_per_scope(grants),
    ensures
        one_per_scope(without_grant(grants, permission)),
{
    let after = without_grant(grants, permission);
    let differs = differs_from(permission);
    assert forall|p: PermissionView| (#[trigger] of_scope(after, p)).len() <= 1 by {
        let same_p = in_scope(p);
        assert(after == grants.filter(differs));
        assert(of_scope(after, p) == after.filter(same_p));
        assert(of_scope(grants, p) == grants.filter(same_p));
        lemma_filter_twice(grants, differs, same_p);
        lemma_filter_twice(grants, same_p, differs);
        lemma_filter_same(
            grants,
            |g: PermissionView| differs(g) && same_p(g),
            |g: PermissionView| same_p(g) && differs(g),
        );
        assert(after.filter(same_p) == grants.filter(same_p).filter(differs));
        assert(of_scope(grants, p).len() <= 1);
        grants.filter(same_p).lemma_filter_len(differs);
    }
}

/// A set with the administrator grant allows every request; so does the set
/// that holds the administrator grant alone.
pub proof fn lemma_administrator_override(grants: Seq<PermissionView>, requested: PermissionView)
    ensures
        has_administrator(grants) ==> allows(grants, requested),
        allows(seq![PermissionView::Administrator], requested),
{
    assert(seq![PermissionView::Administrator][0] == PermissionView::Administrator);
}

/// A set with the administrator grant still has it after any grant was set.
pub proof fn lemma_administrator_stays(grants: Seq<PermissionView>, permission: PermissionView)
    requires
        has_administrator(grants),
    ensures
        has_administrator(with_grant(grants, permission)),
{
    if permission is Administrator {
        assert(seq![PermissionView::Administrator][0] == PermissionView::Administrator);
    } else {
        let other = outside_scope(permission);
        let i = choose|i: int| 0 <= i < grants.len() && grants[i] == PermissionView::Administrator;
        grants.lemma_filter_contains(other, i);
        let kept = grants.filter(other);
        let k = choose|k: int| 0 <= k < kept.len() && kept[k] == PermissionView::Administrator;
        assert(kept.push(permission)[k] == PermissionView::Administrator);
    }
}

/// Without the administrator grant, a set whose one grant is `granted` allows
/// exactly what `granted` covers.
pub proof fn lemma_single_grant_gates(granted: PermissionView, requested: PermissionView)
    requires
        !(granted is Administrator),
    ensures
        allows(seq![granted], requested) <==> granted.covers(requested),
{
    let grants = seq![granted];
    assert(grants[0] == granted);
    if has_administrator(grants) {
        let i = choose|i: int| 0 <= i < grants.len() && grants[i] == PermissionView::Administrator;
        assert(grants[i] == granted);
    }
}

} // verus!
