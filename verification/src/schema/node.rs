//! The declared permission tree and its compilation into a schema.

use vstd::prelude::*;
use vstd::string::StringExecFns;
use crate::error::Error;
use crate::schema::codec::find_node;
use crate::schema::compiled::{
    lemma_children_view, node_wf, nodes_view, nodes_wf, segment_ok, segments_distinct, wildcard,
    NodeKind, Schema, SchemaNode, SchemaNodeView,
};
use crate::util::casing::{snake_case_of, to_snake_case};
use crate::util::text::{find_char, str_eq};

verus! {

/// Mathematical model of a declared node, and of a node of the description
/// that is made from it.
pub struct NodeView {
    pub kind: NodeKind,
    pub name: Seq<char>,
    pub parameter: Option<Seq<char>>,
    pub comment: Option<Seq<char>>,
    pub depends_on: Seq<Seq<char>>,
    pub nodes: Seq<NodeView>,
}

/// A node of the declared permission tree.
#[derive(Debug)]
pub enum Node {
    /// A single permission.
    Leaf { name: String, comment: Option<String>, depends_on: Vec<String> },
    /// A group of permissions.
    Branch { name: String, nodes: Vec<Node>, comment: Option<String>, depends_on: Vec<String> },
    /// A single permission that carries a parameter value; `parameter` is the
    /// parameter's label.
    ParamLeaf { name: String, parameter: String, comment: Option<String>, depends_on: Vec<String> },
    /// A group of permissions under a parameter value; `parameter` is the
    /// parameter's label.
    ParamBranch {
        name: String,
        nodes: Vec<Node>,
        parameter: String,
        comment: Option<String>,
        depends_on: Vec<String>,
    },
}

/// The declared permission tree: its name and its top-level nodes.
#[derive(Debug)]
pub struct Tree {
    pub name: String,
    pub nodes: Vec<Node>,
}

/// The views of a list of declared nodes, in order.
pub open spec fn declared_view(nodes: Seq<Node>) -> Seq<NodeView> {
    Seq::new(nodes.len(), |i: int| nodes[i]@)
}

impl Node {
    /// The node as a mathematical value.
    pub open spec fn view(&self) -> NodeView
        decreases self,
    {
        match self {
            Node::Leaf { name, comment, depends_on } => NodeView {
                kind: NodeKind::Leaf,
                name: name@,
                parameter: None,
                comment: comment.deep_view(),
                depends_on: depends_on.deep_view(),
                nodes: Seq::empty(),
            },
            Node::Branch { name, nodes, comment, depends_on } => NodeView {
                kind: NodeKind::Branch,
                name: name@,
                parameter: None,
                comment: comment.deep_view(),
                depends_on: depends_on.deep_view(),
                nodes: Seq::new(
                    nodes.len() as nat,
                    |i: int|
                        if 0 <= i < nodes.len() {
                            nodes[i].view()
                        } else {
                            arbitrary()
                        },
                ),
            },
            Node::ParamLeaf { name, parameter, comment, depends_on } => NodeView {
                kind: NodeKind::StringLeaf,
                name: name@,
                parameter: Some(parameter@),
                comment: comment.deep_view(),
                depends_on: depends_on.deep_view(),
                nodes: Seq::empty(),
            },
            Node::ParamBranch { name, nodes, parameter, comment, depends_on } => NodeView {
                kind: NodeKind::StringBranch,
                name: name@,
                parameter: Some(parameter@),
                comment: comment.deep_view(),
                depends_on: depends_on.deep_view(),
                nodes: Seq::new(
                    nodes.len() as nat,
                    |i: int|
                        if 0 <= i < nodes.len() {
                            nodes[i].view()
                        } else {
                            arbitrary()
                        },
                ),
            },
        }
    }

    /// The declared name.
    pub fn name(&self) -> (r: &String)
        ensures
            r@ == self@.name,
    {
        match self {
            Node::Leaf { name, .. } => name,
            Node::Branch { name, .. } => name,
            Node::ParamLeaf { name, .. } => name,
            Node::ParamBranch { name, .. } => name,
        }
    }

    /// The shape of the node.
    pub fn kind(&self) -> (r: NodeKind)
        ensures
            r == self@.kind,
    {
        match self {
            Node::Leaf { .. } => NodeKind::Leaf,
            Node::Branch { .. } => NodeKind::Branch,
            Node::ParamLeaf { .. } => NodeKind::StringLeaf,
            Node::ParamBranch { .. } => NodeKind::StringBranch,
        }
    }
}

impl Tree {
    /// The top-level nodes as mathematical values.
    pub open spec fn view(&self) -> Seq<NodeView> {
        declared_view(self.nodes@)
    }
}

/// What is wrong with a declared tree.
pub enum SchemaFault {
    /// The node of this name has no usable segment.
    InvalidSegment { name: Seq<char> },
    /// Two siblings have this segment.
    DuplicateSegment { segment: Seq<char> },
}

/// Whether one of the first `n` nodes has the segment `segment`.
pub open spec fn segment_taken(nodes: Seq<NodeView>, n: int, segment: Seq<char>) -> bool {
    exists|j: int| 0 <= j < n && j < nodes.len() && snake_case_of((#[trigger] nodes[j]).name) == segment
}

/// The first fault among the first `n` nodes of a level, going through the
/// nodes in order and, for each, looking first at its own segment, then at what
/// lies below it, then at the segments of the siblings before it.
pub open spec fn level_fault(nodes: Seq<NodeView>, n: int) -> Option<SchemaFault>
    decreases nodes, n,
{
    if n <= 0 || n > nodes.len() {
        None
    } else {
        match level_fault(nodes, n - 1) {
            Some(fault) => Some(fault),
            None => {
                let node = nodes[n - 1];
                let segment = snake_case_of(node.name);
                if !segment_ok(segment) {
                    Some(SchemaFault::InvalidSegment { name: node.name })
                } else {
                    match level_fault(node.nodes, node.nodes.len() as int) {
                        Some(fault) => Some(fault),
                        None => {
                            if segment_taken(nodes, n - 1, segment) {
                                Some(SchemaFault::DuplicateSegment { segment })
                            } else {
                                None
                            }
                        },
                    }
                }
            },
        }
    }
}

/// The first fault of a node taken alone: its own segment, then what lies
/// below it.
pub open spec fn node_fault(node: NodeView) -> Option<SchemaFault> {
    if !segment_ok(snake_case_of(node.name)) {
        Some(SchemaFault::InvalidSegment { name: node.name })
    } else {
        level_fault(node.nodes, node.nodes.len() as int)
    }
}

/// The compiled form of a declared node: the same node with the snake-case
/// form of its name as its segment, and its children compiled in order.
pub open spec fn compiled(node: NodeView) -> SchemaNodeView
    decreases node,
{
    SchemaNodeView {
        kind: node.kind,
        name: node.name,
        segment: snake_case_of(node.name),
        parameter: node.parameter,
        comment: node.comment,
        depends_on: node.depends_on,
        nodes: Seq::new(
            node.nodes.len(),
            |i: int|
                if 0 <= i < node.nodes.len() {
                    compiled(node.nodes[i])
                } else {
                    arbitrary()
                },
        ),
    }
}

/// The compiled forms of a list of declared nodes, in order.
pub open spec fn compiled_level(nodes: Seq<NodeView>) -> Seq<SchemaNodeView> {
    Seq::new(nodes.len(), |i: int| compiled(nodes[i]))
}

/// Whether `fault` is what `error` reports.
pub open spec fn reports(error: Error, fault: SchemaFault) -> bool {
    match fault {
        SchemaFault::InvalidSegment { name } => error matches Error::InvalidSegment(n) && n@ == name,
        SchemaFault::DuplicateSegment { segment } => error matches Error::DuplicateSegment(s) && s@
            == segment,
    }
}

/// A fault found among the first `k` nodes is the fault of the whole level.
pub proof fn lemma_fault_stays(nodes: Seq<NodeView>, k: int, n: int)
    requires
        0 <= k <= n <= nodes.len(),
        level_fault(nodes, k) is Some,
    ensures
        level_fault(nodes, n) == level_fault(nodes, k),
    decreases n - k,
{
    if k < n {
        lemma_fault_stays(nodes, k, n - 1);
    }
}

/// In a level without a fault, the segment of no node is taken by a node
/// before it.
proof fn lemma_no_fault_no_taken(nodes: Seq<NodeView>, n: int, j: int)
    requires
        0 <= j < n <= nodes.len(),
        level_fault(nodes, n) is None,
    ensures
        !segment_taken(nodes, j, snake_case_of(nodes[j].name)),
    decreases n,
{
    if j < n - 1 {
        lemma_no_fault_no_taken(nodes, n - 1, j);
    }
}

/// Sibling names are unique in every tree that compiles: two nodes of one
/// level with the same name would share a segment.
pub proof fn lemma_compiled_names_differ(nodes: Seq<NodeView>, i: int, j: int)
    requires
        level_fault(nodes, nodes.len() as int) is None,
        0 <= i < j < nodes.len(),
    ensures
        nodes[i].name != nodes[j].name,
        snake_case_of(nodes[i].name) != snake_case_of(nodes[j].name),
{
    lemma_no_fault_no_taken(nodes, nodes.len() as int, j);
    if snake_case_of(nodes[i].name) == snake_case_of(nodes[j].name) {
        assert(segment_taken(nodes, j, snake_case_of(nodes[j].name)));
    }
}

/// Whether `segment` can stand for a node in a dotted path.
pub fn usable_segment(segment: &str) -> (r: bool)
    ensures
        r == segment_ok(segment@),
{
    proof {
        reveal_strlit("*");
    }
    assert("*"@ =~= wildcard());
    if segment.unicode_len() == 0 {
        return false;
    }
    if str_eq(segment, "*") {
        return false;
    }
    match find_char(segment, '.') {
        Some(_) => false,
        None => true,
    }
}

impl Node {
    /// Compiles the node and all below it: gives each node the snake-case form
    /// of its name as its segment and checks that the segment is usable and
    /// that no two siblings share one.
    ///
    /// Fails with the first fault, in the order of `node_fault`.
    pub fn render(&self) -> (r: Result<SchemaNode, Error>)
        ensures
            match r {
                Ok(node) => {
                    &&& node_fault(self@) is None
                    &&& node@ == compiled(self@)
                    &&& node.wf()
                },
                Err(error) => node_fault(self@) matches Some(fault) && reports(error, fault),
            },
        decreases self,
    {
        let segment = to_snake_case(self.name().as_str());
        if !usable_segment(segment.as_str()) {
            return Err(Error::InvalidSegment(self.name().clone()));
        }
        let r = match self {
            Node::Leaf { name, comment, depends_on } => SchemaNode {
                kind: NodeKind::Leaf,
                name: name.clone(),
                segment,
                parameter: None,
                comment: comment.clone(),
                depends_on: depends_on.clone(),
                nodes: Vec::new(),
            },
            Node::Branch { name, nodes, comment, depends_on } => {
                assert(self@.nodes =~= declared_view(nodes@));
                let below = render_level(nodes)?;
                SchemaNode {
                    kind: NodeKind::Branch,
                    name: name.clone(),
                    segment,
                    parameter: None,
                    comment: comment.clone(),
                    depends_on: depends_on.clone(),
                    nodes: below,
                }
            },
            Node::ParamLeaf { name, parameter, comment, depends_on } => SchemaNode {
                kind: NodeKind::StringLeaf,
                name: name.clone(),
                segment,
                parameter: Some(parameter.clone()),
                comment: comment.clone(),
                depends_on: depends_on.clone(),
                nodes: Vec::new(),
            },
            Node::ParamBranch { name, nodes, parameter, comment, depends_on } => {
                assert(self@.nodes =~= declared_view(nodes@));
                let below = render_level(nodes)?;
                SchemaNode {
                    kind: NodeKind::StringBranch,
                    name: name.clone(),
                    segment,
                    parameter: Some(parameter.clone()),
                    comment: comment.clone(),
                    depends_on: depends_on.clone(),
                    nodes: below,
                }
            },
        };
        proof {
            lemma_children_view(r);
            assert(r@.nodes =~= compiled(self@).nodes);
        }
        Ok(r)
    }
}

/// Compiles a list of sibling nodes in order.
///
/// Fails with the first fault, in the order of `level_fault`.
pub fn render_level(nodes: &Vec<Node>) -> (r: Result<Vec<SchemaNode>, Error>)
    ensures
        match r {
            Ok(out) => {
                &&& level_fault(declared_view(nodes@), nodes.len() as int) is None
                &&& nodes_view(out@) == compiled_level(declared_view(nodes@))
                &&& nodes_wf(nodes_view(out@))
            },
            Err(error) => level_fault(declared_view(nodes@), nodes.len() as int) matches Some(fault)
                && reports(error, fault),
        },
    decreases nodes,
{
    let ghost declared = declared_view(nodes@);
    let mut out: Vec<SchemaNode> = Vec::new();
    let mut i: usize = 0;
    while i < nodes.len()
        invariant
            i <= nodes.len(),
            out.len() == i,
            declared == declared_view(nodes@),
            level_fault(declared, i as int) is None,
            forall|j: int| 0 <= j < i ==> (#[trigger] out[j])@ == compiled(declared[j]),
            forall|j: int| 0 <= j < i ==> node_wf(#[trigger] nodes_view(out@)[j]),
            segments_distinct(nodes_view(out@)),
        decreases nodes.len() - i,
    {
        let ghost before = nodes_view(out@);
        match nodes[i].render() {
            Ok(node) => {
                match find_node(&out, node.segment.as_str()) {
                    Some(j) => {
                        proof {
                            assert(before[j as int] == out[j as int]@);
                            assert(snake_case_of(declared[j as int].name) == node.segment@);
                            assert(segment_taken(declared, i as int, node.segment@));
                            lemma_fault_stays(declared, i + 1, nodes.len() as int);
                        }
                        return Err(Error::DuplicateSegment(node.segment));
                    },
                    None => {
                        proof {
                            assert forall|j: int| 0 <= j < i && j < declared.len() implies snake_case_of(
                                (#[trigger] declared[j]).name,
                            ) != node.segment@ by {
                                assert(before[j].segment != node.segment@);
                                assert(before[j] == out[j]@);
                            }
                            assert(!segment_taken(declared, i as int, node.segment@));
                        }
                        out.push(node);
                        proof {
                            let after = nodes_view(out@);
                            assert forall|j: int| 0 <= j < i + 1 implies node_wf(
                                #[trigger] after[j],
                            ) by {
                                if j < i {
                                    assert(after[j] == before[j]);
                                }
                            }
                            assert forall|a: int, b: int| 0 <= a < b < after.len() implies (
                            #[trigger] after[a]).segment != (#[trigger] after[b]).segment by {
                                assert(after[a] == before[a]);
                                if b < i {
                                    assert(after[b] == before[b]);
                                }
                            }
                        }
                    },
                }
            },
            Err(error) => {
                proof {
                    lemma_fault_stays(declared, i + 1, nodes.len() as int);
                }
                return Err(error);
            },
        }
        i += 1;
    }
    proof {
        assert(nodes_view(out@) =~= compiled_level(declared));
    }
    Ok(out)
}

/// Compiles the declared tree into a schema.
///
/// Fails with the first fault of the top level, in the order of `level_fault`.
pub fn impl_permissions(tree: &Tree) -> (r: Result<Schema, Error>)
    ensures
        match r {
            Ok(schema) => {
                &&& level_fault(tree@, tree.nodes.len() as int) is None
                &&& schema@.name == tree.name@
                &&& schema@.nodes == compiled_level(tree@)
                &&& schema.wf()
            },
            Err(error) => level_fault(tree@, tree.nodes.len() as int) matches Some(fault)
                && reports(error, fault),
        },
{
    let nodes = render_level(&tree.nodes)?;
    Ok(Schema { name: tree.name.clone(), nodes })
}

} // verus!
