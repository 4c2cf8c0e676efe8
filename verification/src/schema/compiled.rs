//! The compiled schema: every node of the tree with the path segment that
//! stands for it in a dotted permission string.

use vstd::prelude::*;
use crate::util::text::has_char;

verus! {

/// The four shapes of a schema node.
#[derive(Clone, Copy, Debug, PartialEq, Eq, Structural)]
pub enum NodeKind {
    /// A permission without anything below it.
    Leaf,
    /// A group of permissions.
    Branch,
    /// A permission that carries a parameter value.
    StringLeaf,
    /// A group of permissions under a parameter value.
    StringBranch,
}

impl NodeKind {
    /// Whether nodes of this kind have children.
    pub open spec fn is_branch(self) -> bool {
        self is Branch || self is StringBranch
    }

    /// Whether nodes of this kind carry a parameter.
    pub open spec fn is_parameterized(self) -> bool {
        self is StringLeaf || self is StringBranch
    }

    /// Executable form of `is_branch`.
    pub fn has_children(&self) -> (r: bool)
        ensures
            r == self.is_branch(),
    {
        match self {
            NodeKind::Branch | NodeKind::StringBranch => true,
            NodeKind::Leaf | NodeKind::StringLeaf => false,
        }
    }

    /// Executable form of `is_parameterized`.
    pub fn has_parameter(&self) -> (r: bool)
        ensures
            r == self.is_parameterized(),
    {
        match self {
            NodeKind::StringLeaf | NodeKind::StringBranch => true,
            NodeKind::Leaf | NodeKind::Branch => false,
        }
    }
}

/// Mathematical model of a compiled node.
pub struct SchemaNodeView {
    pub kind: NodeKind,
    pub name: Seq<char>,
    pub segment: Seq<char>,
    pub parameter: Option<Seq<char>>,
    pub comment: Option<Seq<char>>,
    pub depends_on: Seq<Seq<char>>,
    pub nodes: Seq<SchemaNodeView>,
}

/// A node of the compiled schema.
#[derive(Debug)]
pub struct SchemaNode {
    /// Shape of the node.
    pub kind: NodeKind,
    /// Name as it was declared.
    pub name: String,
    /// Segment that stands for the node in a dotted path.
    pub segment: String,
    /// Label of the parameter, for the parameterized kinds.
    pub parameter: Option<String>,
    /// Human description.
    pub comment: Option<String>,
    /// Dotted paths of the permissions that this one is declared to depend on.
    pub depends_on: Vec<String>,
    /// Children in declaration order; empty for the leaf kinds.
    pub nodes: Vec<SchemaNode>,
}

/// The token that stands for "everything" in a dotted path.
pub open spec fn wildcard() -> Seq<char> {
    seq!['*']
}

/// Whether `segment` can stand for a node: not empty, not the wildcard token,
/// and without a separator.
pub open spec fn segment_ok(segment: Seq<char>) -> bool {
    segment.len() > 0 && segment != wildcard() && !has_char(segment, '.')
}

/// Whether the segments of `nodes` are pairwise different.
pub open spec fn segments_distinct(nodes: Seq<SchemaNodeView>) -> bool {
    forall|i: int, j: int|
        0 <= i < j < nodes.len() ==> (#[trigger] nodes[i]).segment != (#[trigger] nodes[j]).segment
}

/// Well-formedness of a list of sibling nodes and of all that lies below them:
/// usable and pairwise different segments, children only under branches, a
/// parameter label exactly on the parameterized kinds.
pub open spec fn nodes_wf(nodes: Seq<SchemaNodeView>) -> bool
    decreases nodes,
{
    &&& segments_distinct(nodes)
    &&& forall|i: int| 0 <= i < nodes.len() ==> node_wf(#[trigger] nodes[i])
}

/// Well-formedness of one node and of all that lies below it.
pub open spec fn node_wf(node: SchemaNodeView) -> bool
    decreases node,
{
    &&& segment_ok(node.segment)
    &&& node.kind.is_branch() || node.nodes.len() == 0
    &&& node.kind.is_parameterized() <==> node.parameter is Some
    &&& nodes_wf(node.nodes)
}

impl SchemaNode {
    /// The node as a mathematical value.
    pub open spec fn view(&self) -> SchemaNodeView
        decreases self,
    {
        SchemaNodeView {
            kind: self.kind,
            name: self.name@,
            segment: self.segment@,
            parameter: self.parameter.deep_view(),
            comment: self.comment.deep_view(),
            depends_on: self.depends_on.deep_view(),
            nodes: Seq::new(
                self.nodes.len() as nat,
                |i: int|
                    if 0 <= i < self.nodes.len() {
                        self.nodes[i].view()
                    } else {
                        arbitrary()
                    },
            ),
        }
    }

    /// Whether the node and all below it are well formed.
    pub open spec fn wf(&self) -> bool {
        node_wf(self@)
    }
}

impl Clone for SchemaNode {
    fn clone(&self) -> (r: Self)
        ensures
            r@ == self@,
        decreases self,
    {
        let nodes = clone_level(&self.nodes);
        let r = SchemaNode {
            kind: self.kind,
            name: self.name.clone(),
            segment: self.segment.clone(),
            parameter: self.parameter.clone(),
            comment: self.comment.clone(),
            depends_on: self.depends_on.clone(),
            nodes,
        };
        assert(r@.nodes =~= nodes_view(nodes@));
        assert(self@.nodes =~= nodes_view(self.nodes@));
        r
    }
}

/// A copy of `nodes`.
pub fn clone_level(nodes: &Vec<SchemaNode>) -> (r: Vec<SchemaNode>)
    ensures
        nodes_view(r@) == nodes_view(nodes@),
    decreases nodes,
{
    let mut out: Vec<SchemaNode> = Vec::new();
    let mut i: usize = 0;
    while i < nodes.len()
        invariant
            i <= nodes.len(),
            out.len() == i,
            forall|j: int| 0 <= j < i ==> out[j]@ == nodes[j]@,
        decreases nodes.len() - i,
    {
        out.push(nodes[i].clone());
        i += 1;
    }
    assert(nodes_view(out@) =~= nodes_view(nodes@));
    out
}

/// The views of a list of nodes, in order.
pub open spec fn nodes_view(nodes: Seq<SchemaNode>) -> Seq<SchemaNodeView> {
    Seq::new(nodes.len(), |i: int| nodes[i]@)
}

/// The children of a node, seen through its view, are the views of its children.
pub proof fn lemma_children_view(node: SchemaNode)
    ensures
        node@.nodes == nodes_view(node.nodes@),
{
    assert(node@.nodes =~= nodes_view(node.nodes@));
}

/// A compiled schema: the name of the tree and its top-level nodes.
#[derive(Debug)]
pub struct Schema {
    /// Name of the tree.
    pub name: String,
    /// Top-level nodes in declaration order.
    pub nodes: Vec<SchemaNode>,
}

/// Mathematical model of a compiled schema.
pub struct SchemaView {
    pub name: Seq<char>,
    pub nodes: Seq<SchemaNodeView>,
}

impl Clone for Schema {
    fn clone(&self) -> (r: Self)
        ensures
            r@ == self@,
    {
        Schema { name: self.name.clone(), nodes: clone_level(&self.nodes) }
    }
}

impl Schema {
    /// The schema as a mathematical value.
    pub open spec fn view(&self) -> SchemaView {
        SchemaView { name: self.name@, nodes: nodes_view(self.nodes@) }
    }

    /// Whether every node is well formed and sibling segments differ.
    pub open spec fn wf(&self) -> bool {
        nodes_wf(self@.nodes)
    }
}

} // verus!
