//! The dependencies that the nodes of a schema declare, as a list of edges.
//!
//! A dependency is a hint for tooling: nothing in the library enforces it.

use vstd::prelude::*;
use vstd::string::StringExecFns;
use crate::schema::compiled::{lemma_children_view, nodes_view, Schema, SchemaNode, SchemaNodeView};
use crate::util::text::join3;

verus! {

/// One declared dependency: the dotted path of the node that declares it, made
/// of the segments from the top of the schema down to the node, and the path
/// that the node depends on, as it was declared.
#[derive(Debug, PartialEq, Eq)]
pub struct DependencyEdge {
    pub from: String,
    pub to: String,
}

impl DeepView for DependencyEdge {
    type V = (Seq<char>, Seq<char>);

    open spec fn deep_view(&self) -> (Seq<char>, Seq<char>) {
        (self.from@, self.to@)
    }
}

/// The path of the node with the segment `segment` under the path `prefix`.
pub open spec fn path_under(prefix: Seq<char>, segment: Seq<char>) -> Seq<char> {
    if prefix.len() == 0 {
        segment
    } else {
        prefix + seq!['.'] + segment
    }
}

/// The edges from the node at `from` to each of `depends_on`, in order.
pub open spec fn own_edges(from: Seq<char>, depends_on: Seq<Seq<char>>) -> Seq<
    (Seq<char>, Seq<char>),
> {
    Seq::new(depends_on.len(), |i: int| (from, depends_on[i]))
}

/// The edges of `node`, which stands under the path `prefix`, and of all below
/// it: its own first, then those of its children in order.
pub open spec fn node_edges(node: SchemaNodeView, prefix: Seq<char>) -> Seq<(Seq<char>, Seq<char>)>
    decreases node, 0int,
{
    own_edges(path_under(prefix, node.segment), node.depends_on) + level_edges(
        node.nodes,
        path_under(prefix, node.segment),
        node.nodes.len() as int,
    )
}

/// The edges of the first `n` of `nodes`, which stand under the path `prefix`.
pub open spec fn level_edges(nodes: Seq<SchemaNodeView>, prefix: Seq<char>, n: int) -> Seq<
    (Seq<char>, Seq<char>),
>
    decreases nodes, n,
{
    if n <= 0 || n > nodes.len() {
        Seq::empty()
    } else {
        level_edges(nodes, prefix, n - 1) + node_edges(nodes[n - 1], prefix)
    }
}

/// The path of the node with the segment `segment` under the path `prefix`.
fn path_below(prefix: &str, segment: &str) -> (r: String)
    ensures
        r@ == path_under(prefix@, segment@),
{
    if prefix.unicode_len() == 0 {
        String::from_str(segment)
    } else {
        proof {
            reveal_strlit(".");
        }
        assert("."@ =~= seq!['.']);
        join3(prefix, ".", segment)
    }
}

/// The edges of `node` and of all below it.
pub fn edges_of_node(node: &SchemaNode, prefix: &str) -> (r: Vec<DependencyEdge>)
    ensures
        r.deep_view() == node_edges(node@, prefix@),
    decreases node, 0int,
{
    proof {
        lemma_children_view(*node);
    }
    let path = path_below(prefix, node.segment.as_str());
    let mut out: Vec<DependencyEdge> = Vec::new();
    let mut i: usize = 0;
    while i < node.depends_on.len()
        invariant
            i <= node.depends_on.len(),
            out.len() == i,
            forall|j: int|
                0 <= j < i ==> (#[trigger] out[j]).deep_view() == (path@, node.depends_on[j]@),
        decreases node.depends_on.len() - i,
    {
        out.push(DependencyEdge { from: path.clone(), to: node.depends_on[i].clone() });
        i += 1;
    }
    assert(out.deep_view() =~= own_edges(path@, node@.depends_on));
    let mut below = edges_of_level(&node.nodes, path.as_str());
    let ghost own = out.deep_view();
    let ghost rest = below.deep_view();
    out.append(&mut below);
    assert(out.deep_view() =~= own + rest);
    out
}

/// The edges of `nodes` and of all below them.
pub fn edges_of_level(nodes: &Vec<SchemaNode>, prefix: &str) -> (r: Vec<DependencyEdge>)
    ensures
        r.deep_view() == level_edges(nodes_view(nodes@), prefix@, nodes.len() as int),
    decreases nodes, nodes.len(),
{
    let ghost views = nodes_view(nodes@);
    let mut out: Vec<DependencyEdge> = Vec::new();
    let mut i: usize = 0;
    assert(out.deep_view() =~= level_edges(views, prefix@, 0));
    while i < nodes.len()
        invariant
            i <= nodes.len(),
            views == nodes_view(nodes@),
            out.deep_view() == level_edges(views, prefix@, i as int),
        decreases nodes.len() - i,
    {
        let mut next = edges_of_node(&nodes[i], prefix);
        let ghost before = out.deep_view();
        let ghost added = next.deep_view();
        out.append(&mut next);
        assert(out.deep_view() =~= before + added);
        i += 1;
    }
    out
}

impl Schema {
    /// The dependencies that the nodes of the schema declare, node by node
    /// from the top down and from the first child to the last.
    pub fn dependency_edges(&self) -> (r: Vec<DependencyEdge>)
        ensures
            r.deep_view() == level_edges(self@.nodes, Seq::empty(), self@.nodes.len() as int),
    {
        let r = edges_of_level(&self.nodes, "");
        proof {
            reveal_strlit("");
            assert(""@ =~= Seq::<char>::empty());
        }
        r
    }
}

} // verus!
