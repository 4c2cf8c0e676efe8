//! Validation of compiled schemas that were put together by hand.

use vstd::prelude::*;
use crate::schema::codec::{find_node, is_first_match};
use crate::schema::compiled::{
    lemma_children_view, node_wf, nodes_view, nodes_wf, segments_distinct, Schema, SchemaNode,
    SchemaNodeView,
};
use crate::schema::node::usable_segment;

verus! {

/// Whether each node of `nodes` is the first with its segment.
pub open spec fn each_first(nodes: Seq<SchemaNodeView>, n: int) -> bool {
    forall|i: int| 0 <= i < n ==> is_first_match(nodes, (#[trigger] nodes[i]).segment, i)
}

/// Sibling segments are pairwise different exactly where each node is the
/// first with its segment.
pub proof fn lemma_distinct_iff_each_first(nodes: Seq<SchemaNodeView>)
    ensures
        segments_distinct(nodes) <==> each_first(nodes, nodes.len() as int),
{
    if segments_distinct(nodes) {
        assert forall|i: int| 0 <= i < nodes.len() implies is_first_match(
            nodes,
            (#[trigger] nodes[i]).segment,
            i,
        ) by {
            assert forall|j: int| 0 <= j < i implies (#[trigger] nodes[j]).segment
                != nodes[i].segment by {}
        }
    }
    if each_first(nodes, nodes.len() as int) {
        assert forall|i: int, j: int| 0 <= i < j < nodes.len() implies (#[trigger] nodes[i]).segment
            != (#[trigger] nodes[j]).segment by {
            assert(is_first_match(nodes, nodes[j].segment, j));
        }
    }
}

/// Whether the node alone, without what lies below it, is well formed.
fn node_ok(node: &SchemaNode) -> (r: bool)
    ensures
        r == ({
            &&& crate::schema::compiled::segment_ok(node@.segment)
            &&& node@.kind.is_branch() || node@.nodes.len() == 0
            &&& node@.kind.is_parameterized() <==> node@.parameter is Some
        }),
{
    proof {
        lemma_children_view(*node);
    }
    usable_segment(node.segment.as_str()) && (node.kind.has_children() || node.nodes.len() == 0)
        && node.kind.has_parameter() == node.parameter.is_some()
}

/// Whether `nodes` and all that lies below them are well formed.
pub fn level_ok(nodes: &Vec<SchemaNode>) -> (r: bool)
    ensures
        r == nodes_wf(nodes_view(nodes@)),
    decreases nodes,
{
    let ghost views = nodes_view(nodes@);
    proof {
        lemma_distinct_iff_each_first(views);
    }
    let mut i: usize = 0;
    while i < nodes.len()
        invariant
            i <= nodes.len(),
            views == nodes_view(nodes@),
            each_first(views, i as int),
            forall|j: int| 0 <= j < i ==> node_wf(#[trigger] views[j]),
            segments_distinct(views) <==> each_first(views, views.len() as int),
        decreases nodes.len() - i,
    {
        proof {
            lemma_children_view(nodes[i as int]);
        }
        if !node_ok(&nodes[i]) || !level_ok(&nodes[i].nodes) {
            assert(!node_wf(views[i as int]));
            return false;
        }
        match find_node(nodes, nodes[i].segment.as_str()) {
            Some(first) => {
                if first != i {
                    assert(!is_first_match(views, views[i as int].segment, i as int)) by {
                        if is_first_match(views, views[i as int].segment, i as int) {
                            crate::schema::codec::lemma_first_match_unique(
                                views,
                                views[i as int].segment,
                                i as int,
                                first as int,
                            );
                        }
                    }
                    return false;
                }
            },
            None => {
                assert(views[i as int].segment == nodes[i as int].segment@);
                return false;
            },
        }
        i += 1;
    }
    true
}

impl Schema {
    /// Whether the schema is well formed: the codec's round trip holds of
    /// such schemas.
    pub fn validate(&self) -> (r: bool)
        ensures
            r == self.wf(),
    {
        level_ok(&self.nodes)
    }
}

} // verus!
