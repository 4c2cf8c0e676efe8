//! Structured permission paths and their dotted-string form.
//!
//! A path names a position in the schema: at each branch it either picks one
//! child and goes on below it, or stops with `All`, which stands for every
//! descendant. Its string form joins the segments of the nodes it passes with
//! dots and writes `*` for `All` and for a parameter left open.

use vstd::prelude::*;
use vstd::string::StringExecFns;
use crate::error::Error;
use crate::schema::compiled::{
    lemma_children_view, node_wf, nodes_view, nodes_wf, NodeKind, Schema, SchemaNode,
    SchemaNodeView, wildcard,
};
use crate::util::text::{
    after_first, before_first, ends_with, find_char, has_char, join3, lemma_after_first_shorter,
    lemma_before_first_has_none, lemma_first_index, lemma_first_index_is, lemma_no_char,
    lemma_split_joined, split_once, str_eq,
};

verus! {

/// Mathematical model of a permission path.
pub enum PathView {
    /// Every node at this level and below.
    All,
    /// The leaf at position `node` among its siblings.
    Leaf { node: int },
    /// The branch at position `node`, and a path below it.
    Branch { node: int, child: Box<PathView> },
    /// The parameterized leaf at position `node`; `None` stands for every
    /// parameter value.
    StringLeaf { node: int, parameter: Option<Seq<char>> },
    /// The parameterized branch at position `node`, and a path below it.
    StringBranch { node: int, parameter: Option<Seq<char>>, child: Box<PathView> },
}

/// A permission path: one value per level of the schema.
#[derive(Debug, PartialEq, Eq)]
pub enum PermissionPath {
    /// Every node at this level and below.
    All,
    /// The leaf at position `node` among its siblings.
    Leaf { node: usize },
    /// The branch at position `node`, and a path below it.
    Branch { node: usize, child: Box<PermissionPath> },
    /// The parameterized leaf at position `node`; `None` stands for every
    /// parameter value.
    StringLeaf { node: usize, parameter: Option<String> },
    /// The parameterized branch at position `node`, and a path below it.
    StringBranch { node: usize, parameter: Option<String>, child: Box<PermissionPath> },
}

impl PermissionPath {
    /// The path as a mathematical value.
    pub open spec fn view(&self) -> PathView
        decreases self,
    {
        match self {
            PermissionPath::All => PathView::All,
            PermissionPath::Leaf { node } => PathView::Leaf { node: *node as int },
            PermissionPath::Branch { node, child } => PathView::Branch {
                node: *node as int,
                child: Box::new(child.view()),
            },
            PermissionPath::StringLeaf { node, parameter } => PathView::StringLeaf {
                node: *node as int,
                parameter: parameter.deep_view(),
            },
            PermissionPath::StringBranch { node, parameter, child } => PathView::StringBranch {
                node: *node as int,
                parameter: parameter.deep_view(),
                child: Box::new(child.view()),
            },
        }
    }
}

impl Clone for PermissionPath {
    fn clone(&self) -> (r: Self)
        ensures
            r@ == self@,
        decreases self,
    {
        match self {
            PermissionPath::All => PermissionPath::All,
            PermissionPath::Leaf { node } => PermissionPath::Leaf { node: *node },
            PermissionPath::Branch { node, child } => {
                let below = (**child).clone();
                PermissionPath::Branch { node: *node, child: Box::new(below) }
            },
            PermissionPath::StringLeaf { node, parameter } => PermissionPath::StringLeaf {
                node: *node,
                parameter: parameter.clone(),
            },
            PermissionPath::StringBranch { node, parameter, child } => {
                let below = (**child).clone();
                PermissionPath::StringBranch {
                    node: *node,
                    parameter: parameter.clone(),
                    child: Box::new(below),
                }
            },
        }
    }
}

/// Whether `path` has the shape that `nodes` prescribes: every position names
/// a node of the kind of the variant, level by level.
pub open spec fn path_fits(nodes: Seq<SchemaNodeView>, path: PathView) -> bool
    decreases path,
{
    match path {
        PathView::All => true,
        PathView::Leaf { node } => 0 <= node < nodes.len() && nodes[node].kind is Leaf,
        PathView::Branch { node, child } => {
            &&& 0 <= node < nodes.len()
            &&& nodes[node].kind is Branch
            &&& path_fits(nodes[node].nodes, *child)
        },
        PathView::StringLeaf { node, parameter } => {
            &&& 0 <= node < nodes.len()
            &&& nodes[node].kind is StringLeaf
        },
        PathView::StringBranch { node, parameter, child } => {
            &&& 0 <= node < nodes.len()
            &&& nodes[node].kind is StringBranch
            &&& path_fits(nodes[node].nodes, *child)
        },
    }
}

/// Whether a parameter value can be written into a dotted path and read back:
/// it is not the wildcard token.
pub open spec fn leaf_parameter_ok(parameter: Option<Seq<char>>) -> bool {
    parameter matches Some(p) ==> p != wildcard()
}

/// Whether a parameter value of a branch can be written and read back: it is
/// not the wildcard token and holds no separator.
pub open spec fn branch_parameter_ok(parameter: Option<Seq<char>>) -> bool {
    parameter matches Some(p) ==> p != wildcard() && !has_char(p, '.')
}

/// Whether `path` is a valid path of the schema level `nodes`: it fits the
/// schema and each parameter value can be told from the wildcard and from the
/// segments around it.
pub open spec fn path_valid(nodes: Seq<SchemaNodeView>, path: PathView) -> bool
    decreases path,
{
    match path {
        PathView::All => true,
        PathView::Leaf { node } => 0 <= node < nodes.len() && nodes[node].kind is Leaf,
        PathView::Branch { node, child } => {
            &&& 0 <= node < nodes.len()
            &&& nodes[node].kind is Branch
            &&& path_valid(nodes[node].nodes, *child)
        },
        PathView::StringLeaf { node, parameter } => {
            &&& 0 <= node < nodes.len()
            &&& nodes[node].kind is StringLeaf
            &&& leaf_parameter_ok(parameter)
        },
        PathView::StringBranch { node, parameter, child } => {
            &&& 0 <= node < nodes.len()
            &&& nodes[node].kind is StringBranch
            &&& branch_parameter_ok(parameter)
            &&& path_valid(nodes[node].nodes, *child)
        },
    }
}

/// How a parameter is written: its value, or the wildcard token where it is open.
pub open spec fn parameter_text(parameter: Option<Seq<char>>) -> Seq<char> {
    match parameter {
        Some(p) => p,
        None => wildcard(),
    }
}

/// The dotted string of `path` at the schema level `nodes`.
///
/// `All` is `*`. A leaf is its segment. A branch is its segment, a dot and the
/// string of its child, so a branch over `All` ends in `.*`. A parameterized
/// node writes its parameter after its segment, `*` where the parameter is
/// open; a parameterized branch with an open parameter over `All` is written
/// with a single `*`.
pub open spec fn encode_spec(nodes: Seq<SchemaNodeView>, path: PathView) -> Seq<char>
    decreases path,
{
    match path {
        PathView::All => wildcard(),
        PathView::Leaf { node } => nodes[node].segment,
        PathView::Branch { node, child } => nodes[node].segment + seq!['.'] + encode_spec(
            nodes[node].nodes,
            *child,
        ),
        PathView::StringLeaf { node, parameter } => nodes[node].segment + seq!['.']
            + parameter_text(parameter),
        PathView::StringBranch { node, parameter, child } => {
            if parameter is None && *child is All {
                nodes[node].segment + seq!['.'] + wildcard()
            } else {
                nodes[node].segment + seq!['.'] + (parameter_text(parameter) + seq!['.']
                    + encode_spec(nodes[node].nodes, *child))
            }
        },
    }
}

/// Whether `i` is the position of the first node of `nodes` whose segment is `head`.
pub open spec fn is_first_match(nodes: Seq<SchemaNodeView>, head: Seq<char>, i: int) -> bool {
    &&& 0 <= i < nodes.len()
    &&& nodes[i].segment == head
    &&& forall|j: int| 0 <= j < i ==> (#[trigger] nodes[j]).segment != head
}

/// Position of the first node of `nodes` whose segment is `head`, if any.
pub open spec fn find_segment(nodes: Seq<SchemaNodeView>, head: Seq<char>) -> Option<int> {
    if exists|i: int| is_first_match(nodes, head, i) {
        Some(choose|i: int| is_first_match(nodes, head, i))
    } else {
        None
    }
}

/// What a dotted string leaves to the levels below its first segment: nothing
/// where it has no dot or only `*` behind its first dot.
pub open spec fn remainder(text: Seq<char>) -> Option<Seq<char>> {
    if has_char(text, '.') && after_first(text, '.') != wildcard() {
        Some(after_first(text, '.'))
    } else {
        None
    }
}

/// A parameter as read from a segment: open where the segment is `*`.
pub open spec fn parameter_of(segment: Seq<char>) -> Option<Seq<char>> {
    if segment == wildcard() {
        None
    } else {
        Some(segment)
    }
}

/// What `text` decodes to at the schema level `nodes`: a path, or the segment
/// that names no node.
///
/// The first segment picks the first node with that segment. A leaf ignores
/// what follows. A branch decodes what follows at the level of its children,
/// `All` where nothing follows. A parameterized leaf takes all that follows as
/// its parameter. A parameterized branch takes the next segment as its
/// parameter and decodes the rest below. Where no node has the segment, `*`
/// decodes to `All` and anything else is unknown.
pub open spec fn decode_spec(nodes: Seq<SchemaNodeView>, text: Seq<char>) -> Result<
    PathView,
    Seq<char>,
>
    decreases text.len(),
{
    let head = before_first(text, '.');
    let rest = remainder(text);
    match find_segment(nodes, head) {
        Some(i) => match nodes[i].kind {
            NodeKind::Leaf => Ok(PathView::Leaf { node: i }),
            NodeKind::Branch => match rest {
                Some(r) => {
                    proof {
                        lemma_after_first_shorter(text, '.');
                    }
                    match decode_spec(nodes[i].nodes, r) {
                        Ok(child) => Ok(PathView::Branch { node: i, child: Box::new(child) }),
                        Err(unknown) => Err(unknown),
                    }
                },
                None => Ok(PathView::Branch { node: i, child: Box::new(PathView::All) }),
            },
            NodeKind::StringLeaf => Ok(PathView::StringLeaf { node: i, parameter: rest }),
            NodeKind::StringBranch => match rest {
                Some(r) => {
                    if has_char(r, '.') {
                        proof {
                            lemma_after_first_shorter(text, '.');
                            lemma_after_first_shorter(r, '.');
                        }
                        match decode_spec(nodes[i].nodes, after_first(r, '.')) {
                            Ok(child) => Ok(
                                PathView::StringBranch {
                                    node: i,
                                    parameter: parameter_of(before_first(r, '.')),
                                    child: Box::new(child),
                                },
                            ),
                            Err(unknown) => Err(unknown),
                        }
                    } else {
                        Ok(
                            PathView::StringBranch {
                                node: i,
                                parameter: parameter_of(r),
                                child: Box::new(PathView::All),
                            },
                        )
                    }
                },
                None => Ok(
                    PathView::StringBranch {
                        node: i,
                        parameter: None,
                        child: Box::new(PathView::All),
                    },
                ),
            },
        },
        None => {
            if head == wildcard() {
                Ok(PathView::All)
            } else {
                Err(head)
            }
        },
    }
}

/// Two first matches of one segment are the same position.
pub proof fn lemma_first_match_unique(nodes: Seq<SchemaNodeView>, head: Seq<char>, i: int, j: int)
    requires
        is_first_match(nodes, head, i),
        is_first_match(nodes, head, j),
    ensures
        i == j,
{
    if i < j {
        assert(nodes[i].segment != head);
    } else if j < i {
        assert(nodes[j].segment != head);
    }
}

/// A first match is what `find_segment` gives.
pub proof fn lemma_find_segment_is(nodes: Seq<SchemaNodeView>, head: Seq<char>, i: int)
    requires
        is_first_match(nodes, head, i),
    ensures
        find_segment(nodes, head) == Some(i),
{
    let k = choose|k: int| is_first_match(nodes, head, k);
    lemma_first_match_unique(nodes, head, i, k);
}

/// Where no node has the segment, `find_segment` gives nothing.
pub proof fn lemma_find_segment_none(nodes: Seq<SchemaNodeView>, head: Seq<char>)
    requires
        forall|j: int| 0 <= j < nodes.len() ==> (#[trigger] nodes[j]).segment != head,
    ensures
        find_segment(nodes, head) is None,
{
    assert forall|i: int| !is_first_match(nodes, head, i) by {
        if 0 <= i < nodes.len() {
            assert(nodes[i].segment != head);
        }
    }
}

/// Position of the first node whose segment is `head`.
pub fn find_node(nodes: &Vec<SchemaNode>, head: &str) -> (r: Option<usize>)
    ensures
        match r {
            Some(i) => find_segment(nodes_view(nodes@), head@) == Some(i as int)
                && is_first_match(nodes_view(nodes@), head@, i as int),
            None => find_segment(nodes_view(nodes@), head@) is None && forall|j: int|
                0 <= j < nodes.len() ==> (#[trigger] nodes_view(nodes@)[j]).segment != head@,
        },
{
    let ghost views = nodes_view(nodes@);
    let mut i: usize = 0;
    while i < nodes.len()
        invariant
            i <= nodes.len(),
            views == nodes_view(nodes@),
            forall|j: int| 0 <= j < i ==> (#[trigger] views[j]).segment != head@,
        decreases nodes.len() - i,
    {
        if str_eq(nodes[i].segment.as_str(), head) {
            proof {
                assert(views[i as int].segment == head@);
                lemma_find_segment_is(views, head@, i as int);
            }
            return Some(i);
        }
        assert(views[i as int].segment != head@);
        i += 1;
    }
    proof {
        lemma_find_segment_none(views, head@);
    }
    None
}

/// The text of a parameter: its value, or `*` where it is open.
fn parameter_string(parameter: &Option<String>) -> (r: String)
    ensures
        r@ == parameter_text(parameter.deep_view()),
{
    match parameter {
        Some(p) => p.clone(),
        None => {
            proof {
                reveal_strlit("*");
            }
            assert("*"@ =~= wildcard());
            String::from_str("*")
        },
    }
}

/// Writes `path` as a dotted string at the schema level `nodes`.
pub fn encode_at(nodes: &Vec<SchemaNode>, path: &PermissionPath) -> (r: String)
    requires
        path_fits(nodes_view(nodes@), path@),
    ensures
        r@ == encode_spec(nodes_view(nodes@), path@),
    decreases path,
{
    proof {
        reveal_strlit("*");
        reveal_strlit(".");
        reveal_strlit(".*");
    }
    assert("*"@ =~= wildcard());
    assert("."@ =~= seq!['.']);
    assert(".*"@ =~= seq!['.'] + wildcard());
    match path {
        PermissionPath::All => String::from_str("*"),
        PermissionPath::Leaf { node } => nodes[*node].segment.clone(),
        PermissionPath::Branch { node, child } => {
            proof {
                lemma_children_view(nodes[*node as int]);
            }
            let below = encode_at(&nodes[*node].nodes, child);
            join3(nodes[*node].segment.as_str(), ".", below.as_str())
        },
        PermissionPath::StringLeaf { node, parameter } => {
            let value = parameter_string(parameter);
            join3(nodes[*node].segment.as_str(), ".", value.as_str())
        },
        PermissionPath::StringBranch { node, parameter, child } => {
            proof {
                lemma_children_view(nodes[*node as int]);
            }
            let open = match parameter {
                Some(_) => false,
                None => true,
            };
            let all = match **child {
                PermissionPath::All => true,
                _ => false,
            };
            if open && all {
                join3(nodes[*node].segment.as_str(), ".", "*")
            } else {
                let value = parameter_string(parameter);
                let below = encode_at(&nodes[*node].nodes, child);
                let tail = join3(value.as_str(), ".", below.as_str());
                join3(nodes[*node].segment.as_str(), ".", tail.as_str())
            }
        },
    }
}

/// The first segment of `text` and what it leaves to the levels below.
fn split_head(text: &str) -> (r: (String, Option<String>))
    ensures
        r.0@ == before_first(text@, '.'),
        r.1.deep_view() == remainder(text@),
{
    proof {
        reveal_strlit("*");
        lemma_first_index(text@, '.');
    }
    assert("*"@ =~= wildcard());
    match split_once(text, '.') {
        Some((head, tail)) => {
            if str_eq(tail.as_str(), "*") {
                (head, None)
            } else {
                (head, Some(tail))
            }
        },
        None => {
            assert(before_first(text@, '.') =~= text@);
            (String::from_str(text), None)
        },
    }
}

/// A parameter as read from a segment: open where the segment is `*`.
fn read_parameter(segment: String) -> (r: Option<String>)
    ensures
        r.deep_view() == parameter_of(segment@),
{
    proof {
        reveal_strlit("*");
    }
    assert("*"@ =~= wildcard());
    if str_eq(segment.as_str(), "*") {
        None
    } else {
        Some(segment)
    }
}

/// The path that stands for everything.
fn all() -> (r: PermissionPath)
    ensures
        r@ == PathView::All,
{
    PermissionPath::All
}

/// Reads a dotted string as a path at the schema level `nodes`.
///
/// Fails on the first segment that names no node and is not `*`, with that
/// segment.
pub fn decode_at(nodes: &Vec<SchemaNode>, text: &str) -> (r: Result<PermissionPath, Error>)
    ensures
        match r {
            Ok(path) => decode_spec(nodes_view(nodes@), text@) == Ok::<PathView, Seq<char>>(path@),
            Err(Error::UnknownPermission(unknown)) => decode_spec(nodes_view(nodes@), text@)
                == Err::<PathView, Seq<char>>(unknown@),
            Err(_) => false,
        },
    decreases text@.len(),
{
    let (head, rest) = split_head(text);
    proof {
        reveal_strlit("*");
        lemma_after_first_shorter(text@, '.');
    }
    assert("*"@ =~= wildcard());
    match find_node(nodes, head.as_str()) {
        Some(i) => {
            proof {
                lemma_children_view(nodes[i as int]);
            }
            match nodes[i].kind {
                NodeKind::Leaf => Ok(PermissionPath::Leaf { node: i }),
                NodeKind::Branch => match rest {
                    Some(r) => {
                        let child = decode_at(&nodes[i].nodes, r.as_str())?;
                        Ok(PermissionPath::Branch { node: i, child: Box::new(child) })
                    },
                    None => Ok(PermissionPath::Branch { node: i, child: Box::new(all()) }),
                },
                NodeKind::StringLeaf => Ok(PermissionPath::StringLeaf { node: i, parameter: rest }),
                NodeKind::StringBranch => match rest {
                    Some(r) => {
                        proof {
                            lemma_after_first_shorter(r@, '.');
                        }
                        match split_once(r.as_str(), '.') {
                            Some((value, below)) => {
                                let child = decode_at(&nodes[i].nodes, below.as_str())?;
                                Ok(
                                    PermissionPath::StringBranch {
                                        node: i,
                                        parameter: read_parameter(value),
                                        child: Box::new(child),
                                    },
                                )
                            },
                            None => Ok(
                                PermissionPath::StringBranch {
                                    node: i,
                                    parameter: read_parameter(r),
                                    child: Box::new(all()),
                                },
                            ),
                        }
                    },
                    None => Ok(
                        PermissionPath::StringBranch {
                            node: i,
                            parameter: None,
                            child: Box::new(all()),
                        },
                    ),
                },
            }
        },
        None => {
            if str_eq(head.as_str(), "*") {
                Ok(PermissionPath::All)
            } else {
                Err(Error::UnknownPermission(head))
            }
        },
    }
}

/// The wildcard token holds no separator.
pub proof fn lemma_wildcard_has_no_dot()
    ensures
        !has_char(wildcard(), '.'),
        before_first(wildcard(), '.') == wildcard(),
{
    lemma_first_index_is(wildcard(), '.', 1);
    lemma_no_char(wildcard(), '.');
}

/// In a well-formed level no node has the wildcard token as its segment.
pub proof fn lemma_wildcard_names_no_node(nodes: Seq<SchemaNodeView>)
    requires
        nodes_wf(nodes),
    ensures
        find_segment(nodes, wildcard()) is None,
{
    assert forall|j: int| 0 <= j < nodes.len() implies (#[trigger] nodes[j]).segment
        != wildcard() by {
        assert(node_wf(nodes[j]));
    }
    lemma_find_segment_none(nodes, wildcard());
}

/// In a well-formed level each node is the one that its segment finds.
pub proof fn lemma_segment_finds_node(nodes: Seq<SchemaNodeView>, i: int)
    requires
        nodes_wf(nodes),
        0 <= i < nodes.len(),
    ensures
        find_segment(nodes, nodes[i].segment) == Some(i),
{
    assert forall|j: int| 0 <= j < i implies (#[trigger] nodes[j]).segment
        != nodes[i].segment by {}
    lemma_find_segment_is(nodes, nodes[i].segment, i);
}

/// The string of a valid path is never empty, and it is the wildcard token
/// only for `All`.
pub proof fn lemma_encoded_shape(nodes: Seq<SchemaNodeView>, path: PathView)
    requires
        nodes_wf(nodes),
        path_valid(nodes, path),
    ensures
        encode_spec(nodes, path).len() > 0,
        encode_spec(nodes, path) == wildcard() <==> path is All,
{
    match path {
        PathView::All => {},
        PathView::Leaf { node } => {
            assert(node_wf(nodes[node]));
        },
        PathView::Branch { node, child } => {
            assert(node_wf(nodes[node]));
        },
        PathView::StringLeaf { node, parameter } => {
            assert(node_wf(nodes[node]));
        },
        PathView::StringBranch { node, parameter, child } => {
            assert(node_wf(nodes[node]));
        },
    }
}

/// Decoding the string of a valid path of a well-formed schema level gives the
/// path back.
pub proof fn lemma_round_trip(nodes: Seq<SchemaNodeView>, path: PathView)
    requires
        nodes_wf(nodes),
        path_valid(nodes, path),
    ensures
        decode_spec(nodes, encode_spec(nodes, path)) == Ok::<PathView, Seq<char>>(path),
    decreases path,
{
    let text = encode_spec(nodes, path);
    lemma_wildcard_has_no_dot();
    match path {
        PathView::All => {
            lemma_wildcard_names_no_node(nodes);
        },
        PathView::Leaf { node } => {
            assert(node_wf(nodes[node]));
            lemma_no_char(text, '.');
            lemma_segment_finds_node(nodes, node);
        },
        PathView::Branch { node, child } => {
            assert(node_wf(nodes[node]));
            let below = encode_spec(nodes[node].nodes, *child);
            lemma_split_joined(nodes[node].segment, '.', below);
            lemma_segment_finds_node(nodes, node);
            lemma_encoded_shape(nodes[node].nodes, *child);
            lemma_round_trip(nodes[node].nodes, *child);
        },
        PathView::StringLeaf { node, parameter } => {
            assert(node_wf(nodes[node]));
            lemma_split_joined(nodes[node].segment, '.', parameter_text(parameter));
            lemma_segment_finds_node(nodes, node);
        },
        PathView::StringBranch { node, parameter, child } => {
            assert(node_wf(nodes[node]));
            lemma_segment_finds_node(nodes, node);
            if parameter is None && *child is All {
                lemma_split_joined(nodes[node].segment, '.', wildcard());
            } else {
                let below = encode_spec(nodes[node].nodes, *child);
                let value = parameter_text(parameter);
                let rest = value + seq!['.'] + below;
                lemma_encoded_shape(nodes[node].nodes, *child);
                lemma_split_joined(nodes[node].segment, '.', rest);
                lemma_split_joined(value, '.', below);
                lemma_round_trip(nodes[node].nodes, *child);
                assert(rest.len() >= 2);
                assert(rest != wildcard());
                assert(remainder(text) == Some(rest));
            }
        },
    }
}

/// The path below a branch; `All` for the other variants.
pub open spec fn over_child(path: PathView) -> Box<PathView> {
    match path {
        PathView::Branch { child, .. } => child,
        PathView::StringBranch { child, .. } => child,
        _ => Box::new(PathView::All),
    }
}

/// The string of a branch over `All` ends in `.*`, whether the branch is
/// parameterized or not.
pub proof fn lemma_wildcard_child_ends_in_star(nodes: Seq<SchemaNodeView>, path: PathView)
    requires
        path is Branch || path is StringBranch,
        *over_child(path) is All,
    ensures
        ends_with(encode_spec(nodes, path), seq!['.', '*']),
{
    let text = encode_spec(nodes, path);
    match path {
        PathView::Branch { node, child } => {
            assert(encode_spec(nodes[node].nodes, *child) == wildcard());
            assert(text == nodes[node].segment + seq!['.'] + wildcard());
        },
        PathView::StringBranch { node, parameter, child } => {
            assert(encode_spec(nodes[node].nodes, *child) == wildcard());
            if parameter is Some {
                assert(text == nodes[node].segment + seq!['.'] + (parameter_text(parameter)
                    + seq!['.'] + wildcard()));
            } else {
                assert(text == nodes[node].segment + seq!['.'] + wildcard());
            }
        },
        _ => {},
    }
    assert(text.subrange(text.len() - 2, text.len() as int) =~= seq!['.', '*']);
}

/// At the top of a well-formed schema level, `*` decodes to `All`.
pub proof fn lemma_decode_wildcard(nodes: Seq<SchemaNodeView>)
    requires
        nodes_wf(nodes),
    ensures
        decode_spec(nodes, wildcard()) == Ok::<PathView, Seq<char>>(PathView::All),
{
    lemma_wildcard_has_no_dot();
    lemma_wildcard_names_no_node(nodes);
}

/// A string whose first segment names no node, and is not `*`, fails to decode
/// with that segment, whatever follows it.
pub proof fn lemma_unknown_segment(nodes: Seq<SchemaNodeView>, text: Seq<char>)
    requires
        forall|j: int|
            0 <= j < nodes.len() ==> (#[trigger] nodes[j]).segment != before_first(text, '.'),
        before_first(text, '.') != wildcard(),
    ensures
        decode_spec(nodes, text) == Err::<PathView, Seq<char>>(before_first(text, '.')),
{
    lemma_find_segment_none(nodes, before_first(text, '.'));
}

/// What decodes from a string fits the schema level that it was decoded at.
pub proof fn lemma_decoded_fits(nodes: Seq<SchemaNodeView>, text: Seq<char>)
    ensures
        decode_spec(nodes, text) matches Ok(path) ==> path_fits(nodes, path),
    decreases text.len(),
{
    let head = before_first(text, '.');
    lemma_after_first_shorter(text, '.');
    match find_segment(nodes, head) {
        Some(i) => {
            assert(is_first_match(nodes, head, i));
            assert(path_fits(nodes[i].nodes, PathView::All));
            match remainder(text) {
                Some(r) => {
                    lemma_after_first_shorter(r, '.');
                    lemma_decoded_fits(nodes[i].nodes, r);
                    lemma_decoded_fits(nodes[i].nodes, after_first(r, '.'));
                },
                None => {},
            }
        },
        None => {},
    }
}

/// What decodes from a string is a valid path of the schema level that it was
/// decoded at: an open parameter is read as open, and a parameter of a branch
/// ends at the next dot.
pub proof fn lemma_decoded_valid(nodes: Seq<SchemaNodeView>, text: Seq<char>)
    ensures
        decode_spec(nodes, text) matches Ok(path) ==> path_valid(nodes, path),
    decreases text.len(),
{
    let head = before_first(text, '.');
    lemma_after_first_shorter(text, '.');
    lemma_wildcard_has_no_dot();
    match find_segment(nodes, head) {
        Some(i) => {
            assert(is_first_match(nodes, head, i));
            assert(path_valid(nodes[i].nodes, PathView::All));
            match remainder(text) {
                Some(r) => {
                    lemma_after_first_shorter(r, '.');
                    lemma_before_first_has_none(r, '.');
                    lemma_decoded_valid(nodes[i].nodes, r);
                    lemma_decoded_valid(nodes[i].nodes, after_first(r, '.'));
                },
                None => {},
            }
        },
        None => {},
    }
}

/// Decoding brings a string into its canonical form: in a well-formed schema
/// level, the string of a decoded path decodes to the same path, and encoding
/// that path again gives the same string.
pub proof fn lemma_canonical_form(nodes: Seq<SchemaNodeView>, text: Seq<char>)
    requires
        nodes_wf(nodes),
    ensures
        decode_spec(nodes, text) matches Ok(path) ==> decode_spec(nodes, encode_spec(nodes, path))
            == Ok::<PathView, Seq<char>>(path),
{
    lemma_decoded_valid(nodes, text);
    match decode_spec(nodes, text) {
        Ok(path) => {
            lemma_round_trip(nodes, path);
        },
        Err(_) => {},
    }
}

/// Whether `parameter` is the wildcard token.
fn is_wildcard(parameter: &str) -> (r: bool)
    ensures
        r == (parameter@ == wildcard()),
{
    proof {
        reveal_strlit("*");
    }
    assert("*"@ =~= wildcard());
    str_eq(parameter, "*")
}

/// Whether `path` has the shape that the schema level `nodes` prescribes.
pub fn fits_at(nodes: &Vec<SchemaNode>, path: &PermissionPath) -> (r: bool)
    ensures
        r == path_fits(nodes_view(nodes@), path@),
    decreases path,
{
    match path {
        PermissionPath::All => true,
        PermissionPath::Leaf { node } => *node < nodes.len() && match nodes[*node].kind {
            NodeKind::Leaf => true,
            _ => false,
        },
        PermissionPath::Branch { node, child } => {
            if *node >= nodes.len() {
                return false;
            }
            proof {
                lemma_children_view(nodes[*node as int]);
            }
            match nodes[*node].kind {
                NodeKind::Branch => fits_at(&nodes[*node].nodes, child),
                _ => false,
            }
        },
        PermissionPath::StringLeaf { node, parameter } => *node < nodes.len() && match nodes[*node].kind {
            NodeKind::StringLeaf => true,
            _ => false,
        },
        PermissionPath::StringBranch { node, parameter, child } => {
            if *node >= nodes.len() {
                return false;
            }
            proof {
                lemma_children_view(nodes[*node as int]);
            }
            match nodes[*node].kind {
                NodeKind::StringBranch => fits_at(&nodes[*node].nodes, child),
                _ => false,
            }
        },
    }
}

/// Whether `path` is a valid path of the schema level `nodes`.
pub fn valid_at(nodes: &Vec<SchemaNode>, path: &PermissionPath) -> (r: bool)
    ensures
        r == path_valid(nodes_view(nodes@), path@),
    decreases path,
{
    match path {
        PermissionPath::All => true,
        PermissionPath::Leaf { node } => *node < nodes.len() && match nodes[*node].kind {
            NodeKind::Leaf => true,
            _ => false,
        },
        PermissionPath::Branch { node, child } => {
            if *node >= nodes.len() {
                return false;
            }
            proof {
                lemma_children_view(nodes[*node as int]);
            }
            match nodes[*node].kind {
                NodeKind::Branch => valid_at(&nodes[*node].nodes, child),
                _ => false,
            }
        },
        PermissionPath::StringLeaf { node, parameter } => {
            if *node >= nodes.len() {
                return false;
            }
            let kind_fits = match nodes[*node].kind {
                NodeKind::StringLeaf => true,
                _ => false,
            };
            let parameter_fits = match parameter {
                Some(value) => !is_wildcard(value.as_str()),
                None => true,
            };
            kind_fits && parameter_fits
        },
        PermissionPath::StringBranch { node, parameter, child } => {
            if *node >= nodes.len() {
                return false;
            }
            proof {
                lemma_children_view(nodes[*node as int]);
            }
            let kind_fits = match nodes[*node].kind {
                NodeKind::StringBranch => true,
                _ => false,
            };
            let parameter_fits = match parameter {
                Some(value) => !is_wildcard(value.as_str()) && find_char(value.as_str(), '.').is_none(),
                None => true,
            };
            kind_fits && parameter_fits && valid_at(&nodes[*node].nodes, child)
        },
    }
}

impl Schema {
    /// Whether `path` has the shape that the schema prescribes.
    pub fn accepts(&self, path: &PermissionPath) -> (r: bool)
        ensures
            r == path_fits(self@.nodes, path@),
    {
        fits_at(&self.nodes, path)
    }

    /// Whether `path` is a valid path of the schema: one that decoding its
    /// string gives back.
    pub fn is_valid(&self, path: &PermissionPath) -> (r: bool)
        ensures
            r == path_valid(self@.nodes, path@),
    {
        valid_at(&self.nodes, path)
    }

    /// Writes `path` as a dotted string.
    pub fn encode(&self, path: &PermissionPath) -> (r: String)
        requires
            path_fits(self@.nodes, path@),
        ensures
            r@ == encode_spec(self@.nodes, path@),
    {
        encode_at(&self.nodes, path)
    }

    /// Writes `path` as a dotted string, if it has the shape that the schema
    /// prescribes.
    pub fn try_encode(&self, path: &PermissionPath) -> (r: Option<String>)
        ensures
            match r {
                Some(text) => path_fits(self@.nodes, path@) && text@ == encode_spec(
                    self@.nodes,
                    path@,
                ),
                None => !path_fits(self@.nodes, path@),
            },
    {
        if fits_at(&self.nodes, path) {
            Some(encode_at(&self.nodes, path))
        } else {
            None
        }
    }

    /// Reads a dotted string as a path of the schema.
    ///
    /// Fails on the first segment that names no node and is not `*`, with that
    /// segment.
    pub fn decode(&self, text: &str) -> (r: Result<PermissionPath, Error>)
        ensures
            match r {
                Ok(path) => decode_spec(self@.nodes, text@) == Ok::<PathView, Seq<char>>(path@)
                    && path_fits(self@.nodes, path@) && path_valid(self@.nodes, path@),
                Err(Error::UnknownPermission(unknown)) => decode_spec(self@.nodes, text@)
                    == Err::<PathView, Seq<char>>(unknown@),
                Err(_) => false,
            },
    {
        proof {
            lemma_decoded_fits(self@.nodes, text@);
            lemma_decoded_valid(self@.nodes, text@);
        }
        decode_at(&self.nodes, text)
    }
}

} // verus!
