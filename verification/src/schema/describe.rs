//! The description of a schema for tooling, and the lookup of a node by its
//! dotted path.

use vstd::prelude::*;
use crate::schema::codec::{
    find_node, find_segment, lemma_segment_finds_node, lemma_wildcard_has_no_dot,
};
use crate::schema::compiled::{
    lemma_children_view, node_wf, nodes_view, nodes_wf, wildcard, NodeKind, Schema, SchemaNode,
    SchemaNodeView,
};
use crate::schema::node::{compiled, Node, NodeView};
use crate::util::text::{
    after_first, before_first, has_char, lemma_after_first_shorter, lemma_first_index,
    lemma_no_char, lemma_split_joined, split_once, str_eq,
};

verus! {

/// A node of the description of a schema: what was declared of it.
#[derive(Debug)]
pub enum PermissionsDescription {
    /// A single permission.
    Leaf { name: String, comment: Option<String>, depends_on: Vec<String> },
    /// A group of permissions.
    Branch {
        name: String,
        nodes: Vec<PermissionsDescription>,
        comment: Option<String>,
        depends_on: Vec<String>,
    },
    /// A single permission that carries a parameter value; `parameter` is the
    /// parameter's label.
    StringLeaf { name: String, parameter: String, comment: Option<String>, depends_on: Vec<String> },
    /// A group of permissions under a parameter value; `parameter` is the
    /// parameter's label.
    StringBranch {
        name: String,
        nodes: Vec<PermissionsDescription>,
        parameter: String,
        comment: Option<String>,
        depends_on: Vec<String>,
    },
}

/// The views of a list of described nodes, in order.
pub open spec fn described_view(nodes: Seq<PermissionsDescription>) -> Seq<NodeView> {
    Seq::new(nodes.len(), |i: int| nodes[i]@)
}

impl PermissionsDescription {
    /// The description as a mathematical value.
    pub open spec fn view(&self) -> NodeView
        decreases self,
    {
        match self {
            PermissionsDescription::Leaf { name, comment, depends_on } => NodeView {
                kind: NodeKind::Leaf,
                name: name@,
                parameter: None,
                comment: comment.deep_view(),
                depends_on: depends_on.deep_view(),
                nodes: Seq::empty(),
            },
            PermissionsDescription::Branch { name, nodes, comment, depends_on } => NodeView {
                kind: NodeKind::Branch,
                name: name@,
                parameter: None,
                comment: comment.deep_view(),
                depends_on: depends_on.deep_view(),
                nodes: Seq::new(
                    nodes.len() as nat,
                    |i: int|
                        if 0 <= i < nodes.len() {
                            nodes[i].view()
                        } else {
                            arbitrary()
                        },
                ),
            },
            PermissionsDescription::StringLeaf { name, parameter, comment, depends_on } => NodeView {
                kind: NodeKind::StringLeaf,
                name: name@,
                parameter: Some(parameter@),
                comment: comment.deep_view(),
                depends_on: depends_on.deep_view(),
                nodes: Seq::empty(),
            },
            PermissionsDescription::StringBranch {
                name,
                nodes,
                parameter,
                comment,
                depends_on,
            } => NodeView {
                kind: NodeKind::StringBranch,
                name: name@,
                parameter: Some(parameter@),
                comment: comment.deep_view(),
                depends_on: depends_on.deep_view(),
                nodes: Seq::new(
                    nodes.len() as nat,
                    |i: int|
                        if 0 <= i < nodes.len() {
                            nodes[i].view()
                        } else {
                            arbitrary()
                        },
                ),
            },
        }
    }
}

/// What the description says of a compiled node: its kind, name and comment,
/// its declared dependencies, the label of its parameter where its kind has
/// one, and the same of its children where its kind has any. The segment is
/// left out.
pub open spec fn described(node: SchemaNodeView) -> NodeView
    decreases node,
{
    NodeView {
        kind: node.kind,
        name: node.name,
        parameter: if node.kind.is_parameterized() {
            Some(
                match node.parameter {
                    Some(label) => label,
                    None => Seq::empty(),
                },
            )
        } else {
            None
        },
        comment: node.comment,
        depends_on: node.depends_on,
        nodes: if node.kind.is_branch() {
            Seq::new(
                node.nodes.len(),
                |i: int|
                    if 0 <= i < node.nodes.len() {
                        described(node.nodes[i])
                    } else {
                        arbitrary()
                    },
            )
        } else {
            Seq::empty()
        },
    }
}

/// What the description says of a list of compiled nodes, in order.
pub open spec fn described_level(nodes: Seq<SchemaNodeView>) -> Seq<NodeView> {
    Seq::new(nodes.len(), |i: int| described(nodes[i]))
}

/// What the description says of the schema as a whole: a branch with the name
/// of the schema over its top-level nodes.
pub open spec fn described_root(name: Seq<char>, nodes: Seq<SchemaNodeView>) -> NodeView {
    NodeView {
        kind: NodeKind::Branch,
        name,
        parameter: None,
        comment: None,
        depends_on: Seq::empty(),
        nodes: described_level(nodes),
    }
}

/// The label of a parameter, empty where none is stored.
fn label_of(parameter: &Option<String>) -> (r: String)
    ensures
        r@ == match parameter.deep_view() {
            Some(label) => label,
            None => Seq::<char>::empty(),
        },
{
    match parameter {
        Some(label) => label.clone(),
        None => String::new(),
    }
}

/// The descriptions of a list of compiled nodes, in order.
pub fn describe_level(nodes: &Vec<SchemaNode>) -> (r: Vec<PermissionsDescription>)
    ensures
        described_view(r@) == described_level(nodes_view(nodes@)),
    decreases nodes,
{
    let mut out: Vec<PermissionsDescription> = Vec::new();
    let mut i: usize = 0;
    while i < nodes.len()
        invariant
            i <= nodes.len(),
            out.len() == i,
            forall|j: int| 0 <= j < i ==> (#[trigger] out[j])@ == described(nodes[j]@),
        decreases nodes.len() - i,
    {
        out.push(nodes[i].describe());
        i += 1;
    }
    assert(described_view(out@) =~= described_level(nodes_view(nodes@)));
    out
}

impl SchemaNode {
    /// The description of the node and of all below it.
    pub fn describe(&self) -> (r: PermissionsDescription)
        ensures
            r@ == described(self@),
        decreases self,
    {
        proof {
            lemma_children_view(*self);
        }
        let r = match self.kind {
            NodeKind::Leaf => PermissionsDescription::Leaf {
                name: self.name.clone(),
                comment: self.comment.clone(),
                depends_on: self.depends_on.clone(),
            },
            NodeKind::Branch => {
                let nodes = describe_level(&self.nodes);
                assert(described_view(nodes@) =~= described(self@).nodes);
                let r = PermissionsDescription::Branch {
                    name: self.name.clone(),
                    nodes,
                    comment: self.comment.clone(),
                    depends_on: self.depends_on.clone(),
                };
                assert(r@.nodes =~= described_view(nodes@));
                r
            },
            NodeKind::StringLeaf => PermissionsDescription::StringLeaf {
                name: self.name.clone(),
                parameter: label_of(&self.parameter),
                comment: self.comment.clone(),
                depends_on: self.depends_on.clone(),
            },
            NodeKind::StringBranch => {
                let nodes = describe_level(&self.nodes);
                assert(described_view(nodes@) =~= described(self@).nodes);
                let r = PermissionsDescription::StringBranch {
                    name: self.name.clone(),
                    nodes,
                    parameter: label_of(&self.parameter),
                    comment: self.comment.clone(),
                    depends_on: self.depends_on.clone(),
                };
                assert(r@.nodes =~= described_view(nodes@));
                r
            },
        };
        r
    }
}

/// What a dotted path leads to.
pub enum Found {
    /// Nothing.
    Nothing,
    /// The branch whose children the search began at.
    Origin,
    /// A node below that branch.
    Node(SchemaNodeView),
}

/// What `path` leads to among `nodes`, the children of a branch.
///
/// The first segment names a child. Where it is the last segment, the path
/// leads to that child; else the rest is followed from the child on, as
/// `found_from` says. One rule holds for the wildcard at every branch, plain
/// or parameterized: a `*` as the last segment leads to the branch itself,
/// for it stands for all that lies below; a `*` with more behind it, where a
/// child is expected, leads to nothing.
pub open spec fn found_below(nodes: Seq<SchemaNodeView>, path: Seq<char>) -> Found
    decreases path.len(), 0int,
{
    let head = before_first(path, '.');
    if head == wildcard() {
        if has_char(path, '.') {
            Found::Nothing
        } else {
            Found::Origin
        }
    } else {
        match find_segment(nodes, head) {
            None => Found::Nothing,
            Some(i) => {
                if has_char(path, '.') {
                    proof {
                        lemma_after_first_shorter(path, '.');
                    }
                    found_from(nodes[i], after_first(path, '.'))
                } else {
                    Found::Node(nodes[i])
                }
            },
        }
    }
}

/// What `path` leads to from `node` on, once the segment of `node` itself
/// was taken off.
///
/// Nothing lies below a leaf, so any further segment, `*` too, leads to
/// nothing. Below a parameterized leaf all that follows is the parameter
/// value, and the path leads to the leaf. Below a parameterized branch the
/// next segment is the parameter value, whatever it is; where nothing
/// follows it, the path leads to the branch. Below a branch the path goes on
/// among its children.
pub open spec fn found_from(node: SchemaNodeView, path: Seq<char>) -> Found
    decreases path.len(), 1int,
{
    match node.kind {
        NodeKind::Leaf => Found::Nothing,
        NodeKind::StringLeaf => Found::Node(node),
        NodeKind::Branch => anchored(node, found_below(node.nodes, path)),
        NodeKind::StringBranch => {
            if has_char(path, '.') {
                proof {
                    lemma_after_first_shorter(path, '.');
                }
                anchored(node, found_below(node.nodes, after_first(path, '.')))
            } else {
                Found::Node(node)
            }
        },
    }
}

/// What was found below `node`, with `node` itself in place of the origin of
/// the search.
pub open spec fn anchored(node: SchemaNodeView, found: Found) -> Found {
    match found {
        Found::Origin => Found::Node(node),
        other => other,
    }
}

/// What a search below a branch came to, in executable form.
enum Hit<'a> {
    Nothing,
    Origin,
    Node(&'a SchemaNode),
}

impl<'a> Hit<'a> {
    spec fn found(self) -> Found {
        match self {
            Hit::Nothing => Found::Nothing,
            Hit::Origin => Found::Origin,
            Hit::Node(node) => Found::Node(node@),
        }
    }
}

/// Whether `segment` is the wildcard token.
fn is_star(segment: &str) -> (r: bool)
    ensures
        r == (segment@ == wildcard()),
{
    proof {
        reveal_strlit("*");
    }
    assert("*"@ =~= wildcard());
    str_eq(segment, "*")
}

/// What `path` leads to among `nodes`.
fn search_below<'a>(nodes: &'a Vec<SchemaNode>, path: &str) -> (r: Hit<'a>)
    ensures
        r.found() == found_below(nodes_view(nodes@), path@),
    decreases path@.len(), 0int,
{
    proof {
        lemma_first_index(path@, '.');
        lemma_after_first_shorter(path@, '.');
    }
    match split_once(path, '.') {
        Some((head, rest)) => {
            if is_star(head.as_str()) {
                return Hit::Nothing;
            }
            match find_node(nodes, head.as_str()) {
                None => Hit::Nothing,
                Some(i) => search_from(&nodes[i], rest.as_str()),
            }
        },
        None => {
            assert(before_first(path@, '.') =~= path@);
            if is_star(path) {
                return Hit::Origin;
            }
            match find_node(nodes, path) {
                None => Hit::Nothing,
                Some(i) => Hit::Node(&nodes[i]),
            }
        },
    }
}

/// What `path` leads to from `node` on.
fn search_from<'a>(node: &'a SchemaNode, path: &str) -> (r: Hit<'a>)
    ensures
        r.found() == found_from(node@, path@),
    decreases path@.len(), 1int,
{
    proof {
        lemma_children_view(*node);
        lemma_after_first_shorter(path@, '.');
    }
    match node.kind {
        NodeKind::Leaf => Hit::Nothing,
        NodeKind::StringLeaf => Hit::Node(node),
        NodeKind::Branch => match search_below(&node.nodes, path) {
            Hit::Origin => Hit::Node(node),
            other => other,
        },
        NodeKind::StringBranch => match split_once(path, '.') {
            Some((_, rest)) => match search_below(&node.nodes, rest.as_str()) {
                Hit::Origin => Hit::Node(node),
                other => other,
            },
            None => Hit::Node(node),
        },
    }
}

impl Schema {
    /// The description of the schema: a branch with the name of the schema
    /// over the descriptions of its top-level nodes.
    pub fn describe(&self) -> (r: PermissionsDescription)
        ensures
            r@ == described_root(self@.name, self@.nodes),
    {
        let nodes = describe_level(&self.nodes);
        let r = PermissionsDescription::Branch {
            name: self.name.clone(),
            nodes,
            comment: None,
            depends_on: Vec::new(),
        };
        assert(r@.nodes =~= described_view(nodes@));
        assert(r@.depends_on =~= Seq::<Seq<char>>::empty());
        r
    }

    /// The description of the node that the dotted path `path` leads to, by
    /// the rules of `found_below`: of the schema itself for `*`, of nothing
    /// where the path names no node.
    pub fn at_path(&self, path: &str) -> (r: Option<PermissionsDescription>)
        ensures
            match found_below(self@.nodes, path@) {
                Found::Nothing => r is None,
                Found::Origin => r matches Some(d) && d@ == described_root(self@.name, self@.nodes),
                Found::Node(node) => r matches Some(d) && d@ == described(node),
            },
    {
        match search_below(&self.nodes, path) {
            Hit::Nothing => None,
            Hit::Origin => Some(self.describe()),
            Hit::Node(node) => Some(node.describe()),
        }
    }
}

/// At every branch of a well-formed schema, `*` leads to the branch itself,
/// the segment of a child leads to that child, and that segment with more
/// behind a dot leads to where the rest leads from the child on.
pub proof fn lemma_lookup_follows_segments(nodes: Seq<SchemaNodeView>, i: int, rest: Seq<char>)
    requires
        nodes_wf(nodes),
        0 <= i < nodes.len(),
    ensures
        found_below(nodes, wildcard()) == Found::Origin,
        found_below(nodes, nodes[i].segment) == Found::Node(nodes[i]),
        found_below(nodes, nodes[i].segment + seq!['.'] + rest) == found_from(nodes[i], rest),
{
    assert(node_wf(nodes[i]));
    lemma_wildcard_has_no_dot();
    lemma_segment_finds_node(nodes, i);
    lemma_no_char(nodes[i].segment, '.');
    lemma_split_joined(nodes[i].segment, '.', rest);
}

/// Whether `node` has the shape of a declared node: a parameter label exactly
/// on the parameterized kinds, children only under branches, and the same
/// below.
pub open spec fn declarable(node: NodeView) -> bool
    decreases node,
{
    &&& node.kind.is_parameterized() <==> node.parameter is Some
    &&& node.kind.is_branch() || node.nodes.len() == 0
    &&& forall|i: int| 0 <= i < node.nodes.len() ==> declarable(#[trigger] node.nodes[i])
}

/// Every declared node has the shape of a declared node.
pub proof fn lemma_declared_is_declarable(node: Node)
    ensures
        declarable(node@),
    decreases node,
{
    match node {
        Node::Branch { nodes, .. } => {
            assert forall|i: int| 0 <= i < node@.nodes.len() implies declarable(
                #[trigger] node@.nodes[i],
            ) by {
                lemma_declared_is_declarable(nodes[i]);
            }
        },
        Node::ParamBranch { nodes, .. } => {
            assert forall|i: int| 0 <= i < node@.nodes.len() implies declarable(
                #[trigger] node@.nodes[i],
            ) by {
                lemma_declared_is_declarable(nodes[i]);
            }
        },
        _ => {},
    }
}

/// The description of a compiled node says what was declared: compiling a
/// node and describing the result gives the node back.
pub proof fn lemma_description_mirrors_declaration(node: NodeView)
    requires
        declarable(node),
    ensures
        described(compiled(node)) == node,
    decreases node,
{
    let back = described(compiled(node));
    assert forall|i: int| 0 <= i < node.nodes.len() implies #[trigger] back.nodes[i]
        == node.nodes[i] by {
        lemma_description_mirrors_declaration(node.nodes[i]);
    }
    assert(back.nodes =~= node.nodes);
}

} // verus!
