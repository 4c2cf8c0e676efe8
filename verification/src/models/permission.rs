//! The stored assignment of permissions, and the permission tree of the
//! service.

use vstd::prelude::*;
use vstd::string::StringExecFns;
use crate::error::Error;
use crate::schema::compiled::{NodeKind, Schema};
use crate::schema::node::{
    compiled_level, declared_view, impl_permissions, level_fault, reports, Node, NodeView, Tree,
};
use crate::types::str_uuid::Uuid;

verus! {

/// Whom a stored permission is assigned to.
#[derive(Clone, Copy, Debug, PartialEq, Eq, Structural)]
pub enum PermissionTarget {
    Group,
    User,
}

/// Mathematical model of `PermissionModel`.
pub struct PermissionModelView {
    pub id: Seq<char>,
    pub target_type: PermissionTarget,
    pub target_id: Seq<char>,
}

/// A stored assignment: the group or user that permissions are assigned to.
#[derive(Debug)]
pub struct PermissionModel {
    id: Uuid,
    target_type: PermissionTarget,
    target_id: Uuid,
}

impl View for PermissionModel {
    type V = PermissionModelView;

    closed spec fn view(&self) -> PermissionModelView {
        PermissionModelView {
            id: self.id@,
            target_type: self.target_type,
            target_id: self.target_id@,
        }
    }
}

impl DeepView for PermissionModel {
    type V = PermissionModelView;

    open spec fn deep_view(&self) -> PermissionModelView {
        self@
    }
}

impl Clone for PermissionModel {
    fn clone(&self) -> (r: Self)
        ensures
            r@ == self@,
    {
        PermissionModel {
            id: self.id.clone(),
            target_type: self.target_type,
            target_id: self.target_id.clone(),
        }
    }
}

impl PermissionModel {
    /// The value with the given parts.
    pub fn from_parts(id: Uuid, target_type: PermissionTarget, target_id: Uuid) -> (r: Self)
        ensures
            r@ == (PermissionModelView {
                id: id@,
                target_type: target_type,
                target_id: target_id@,
            }),
    {
        PermissionModel { id, target_type, target_id }
    }

    /// Identifier.
    pub fn id(&self) -> (r: Uuid)
        ensures
            r@ == self@.id,
    {
        self.id.clone()
    }

    /// Whether the target is a group or a user.
    pub fn target_type(&self) -> (r: PermissionTarget)
        ensures
            r == self@.target_type,
    {
        self.target_type
    }

    /// Identifier of the group or user.
    pub fn target_id(&self) -> (r: Uuid)
        ensures
            r@ == self@.target_id,
    {
        self.target_id.clone()
    }

    /// The same value with `id` in place of its id.
    pub fn with_id(self, id: Uuid) -> (r: Self)
        ensures
            r@ == (PermissionModelView { id: id@, ..self@ }),
    {
        PermissionModel { id, ..self }
    }

    /// The same value with `target_type` in place of its target type.
    pub fn with_target_type(self, target_type: PermissionTarget) -> (r: Self)
        ensures
            r@ == (PermissionModelView { target_type: target_type, ..self@ }),
    {
        PermissionModel { target_type, ..self }
    }

    /// The same value with `target_id` in place of its target id.
    pub fn with_target_id(self, target_id: Uuid) -> (r: Self)
        ensures
            r@ == (PermissionModelView { target_id: target_id@, ..self@ }),
    {
        PermissionModel { target_id, ..self }
    }
}

/// A declared leaf with a description and without dependencies.
pub open spec fn leaf_view(name: Seq<char>, comment: Seq<char>) -> NodeView {
    NodeView {
        kind: NodeKind::Leaf,
        name,
        parameter: None,
        comment: Some(comment),
        depends_on: Seq::empty(),
        nodes: Seq::empty(),
    }
}

/// A declared branch without dependencies.
pub open spec fn branch_view(name: Seq<char>, nodes: Seq<NodeView>, comment: Option<Seq<char>>) -> NodeView {
    NodeView { kind: NodeKind::Branch, name, parameter: None, comment, depends_on: Seq::empty(), nodes }
}

/// A declared parameterized branch with a description and without
/// dependencies.
pub open spec fn param_branch_view(
    name: Seq<char>,
    parameter: Seq<char>,
    nodes: Seq<NodeView>,
    comment: Seq<char>,
) -> NodeView {
    NodeView {
        kind: NodeKind::StringBranch,
        name,
        parameter: Some(parameter),
        comment: Some(comment),
        depends_on: Seq::empty(),
        nodes,
    }
}

/// The top level of the permission tree of the service, `Permissions`:
///
/// ```text
/// Authentication
///   Users          > View
///   Oidc           > View
///   Applications   > Owned, Others <application> > View
/// ```
pub open spec fn declared_permissions() -> Seq<NodeView> {
    seq![
        branch_view(
            "Authentication"@,
            seq![
                branch_view(
                    "Users"@,
                    seq![leaf_view("View"@, "Only allows viewing user configurations"@)],
                    Some("Allows modification of user configurations"@),
                ),
                branch_view(
                    "Oidc"@,
                    seq![leaf_view("View"@, "Only allows viewing OIDC provider information"@)],
                    Some("Allows modification of OIDC provider(s)"@),
                ),
                branch_view(
                    "Applications"@,
                    seq![
                        leaf_view("Owned"@, "Only allows management of owned applications"@),
                        param_branch_view(
                            "Others"@,
                            "application"@,
                            seq![leaf_view("View"@, "Only allows viewing this application"@)],
                            "Allows management of other applications (app name in <application>)"@,
                        ),
                    ],
                    Some("Allows modification of API clients"@),
                ),
            ],
            None,
        ),
    ]
}

/// A leaf of the permission tree.
fn leaf(name: &str, comment: &str) -> (r: Node)
    ensures
        r@ == leaf_view(name@, comment@),
{
    let r = Node::Leaf {
        name: String::from_str(name),
        comment: Some(String::from_str(comment)),
        depends_on: Vec::new(),
    };
    assert(r@.depends_on =~= Seq::<Seq<char>>::empty());
    r
}

/// A branch of the permission tree.
fn branch(name: &str, nodes: Vec<Node>, comment: Option<&str>) -> (r: Node)
    ensures
        r@ == branch_view(
            name@,
            declared_view(nodes@),
            match comment {
                Some(text) => Some(text@),
                None => None,
            },
        ),
{
    let ghost below = declared_view(nodes@);
    let r = Node::Branch {
        name: String::from_str(name),
        nodes,
        comment: match comment {
            Some(text) => Some(String::from_str(text)),
            None => None,
        },
        depends_on: Vec::new(),
    };
    assert(r@.depends_on =~= Seq::<Seq<char>>::empty());
    assert(r@.nodes =~= below);
    r
}

/// A parameterized branch of the permission tree.
fn param_branch(name: &str, parameter: &str, nodes: Vec<Node>, comment: &str) -> (r: Node)
    ensures
        r@ == param_branch_view(name@, parameter@, declared_view(nodes@), comment@),
{
    let ghost below = declared_view(nodes@);
    let r = Node::ParamBranch {
        name: String::from_str(name),
        nodes,
        parameter: String::from_str(parameter),
        comment: Some(String::from_str(comment)),
        depends_on: Vec::new(),
    };
    assert(r@.depends_on =~= Seq::<Seq<char>>::empty());
    assert(r@.nodes =~= below);
    r
}

/// The permission tree of the service.
pub fn permissions_tree() -> (r: Tree)
    ensures
        r.name@ == "Permissions"@,
        r@ == declared_permissions(),
{
    let mut users: Vec<Node> = Vec::new();
    users.push(leaf("View", "Only allows viewing user configurations"));
    assert(declared_view(users@) =~= seq![
        leaf_view("View"@, "Only allows viewing user configurations"@),
    ]);
    let mut oidc: Vec<Node> = Vec::new();
    oidc.push(leaf("View", "Only allows viewing OIDC provider information"));
    assert(declared_view(oidc@) =~= seq![
        leaf_view("View"@, "Only allows viewing OIDC provider information"@),
    ]);
    let mut others: Vec<Node> = Vec::new();
    others.push(leaf("View", "Only allows viewing this application"));
    assert(declared_view(others@) =~= seq![
        leaf_view("View"@, "Only allows viewing this application"@),
    ]);
    let mut applications: Vec<Node> = Vec::new();
    applications.push(leaf("Owned", "Only allows management of owned applications"));
    applications.push(
        param_branch(
            "Others",
            "application",
            others,
            "Allows management of other applications (app name in <application>)",
        ),
    );
    assert(declared_view(applications@) =~= seq![
        leaf_view("Owned"@, "Only allows management of owned applications"@),
        param_branch_view(
            "Others"@,
            "application"@,
            seq![leaf_view("View"@, "Only allows viewing this application"@)],
            "Allows management of other applications (app name in <application>)"@,
        ),
    ]);
    let mut authentication: Vec<Node> = Vec::new();
    authentication.push(
        branch("Users", users, Some("Allows modification of user configurations")),
    );
    authentication.push(branch("Oidc", oidc, Some("Allows modification of OIDC provider(s)")));
    authentication.push(
        branch("Applications", applications, Some("Allows modification of API clients")),
    );
    assert(declared_view(authentication@) =~= declared_permissions()[0].nodes);
    let mut nodes: Vec<Node> = Vec::new();
    nodes.push(branch("Authentication", authentication, None));
    assert(declared_view(nodes@) =~= declared_permissions());
    Tree { name: String::from_str("Permissions"), nodes }
}

/// The schema of the service: the permission tree, compiled.
///
/// Fails with the first fault of the tree; the names of the tree give none
/// with the snake-case forms that they have.
pub fn permissions() -> (r: Result<Schema, Error>)
    ensures
        match r {
            Ok(schema) => {
                &&& level_fault(declared_permissions(), 1) is None
                &&& schema@.name == "Permissions"@
                &&& schema@.nodes == compiled_level(declared_permissions())
                &&& schema.wf()
            },
            Err(error) => level_fault(declared_permissions(), 1) matches Some(fault) && reports(
                error,
                fault,
            ),
        },
{
    let tree = permissions_tree();
    impl_permissions(&tree)
}

} // verus!
