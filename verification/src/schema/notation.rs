//! The notation of a permission tree, as a sequence of tokens.
//!
//! ```text
//! tree  = name "=>" "{" node* "}"
//! node  = name text? ";"                          a leaf, with its description
//!       | name "=>" "{" node* "}" text? ";"       a branch
//!       | name "=>" text text? ";"                a parameterized leaf
//!       | name "=>" text "{" node* "}" text? ";"  a parameterized branch
//! ```
//!
//! The text behind `=>` is the label of the parameter; the text before `;` is
//! the description of the node. The notation has no place for dependencies.

use vstd::prelude::*;
use crate::error::Error;
use crate::schema::compiled::NodeKind;
use crate::schema::node::{declared_view, Node, NodeView, Tree};

verus! {

/// Mathematical model of `TreeToken`.
pub enum TokenView {
    Ident(Seq<char>),
    Arrow,
    Semicolon,
    Open,
    Close,
    Text(Seq<char>),
}

/// A token of the notation.
#[derive(Debug, PartialEq, Eq)]
pub enum TreeToken {
    /// A name.
    Ident(String),
    /// `=>`
    Arrow,
    /// `;`
    Semicolon,
    /// `{`
    Open,
    /// `}`
    Close,
    /// A text between double quotes; the token holds the text itself.
    Text(String),
}

impl View for TreeToken {
    type V = TokenView;

    open spec fn view(&self) -> TokenView {
        match self {
            TreeToken::Ident(name) => TokenView::Ident(name@),
            TreeToken::Arrow => TokenView::Arrow,
            TreeToken::Semicolon => TokenView::Semicolon,
            TreeToken::Open => TokenView::Open,
            TreeToken::Close => TokenView::Close,
            TreeToken::Text(text) => TokenView::Text(text@),
        }
    }
}

impl DeepView for TreeToken {
    type V = TokenView;

    open spec fn deep_view(&self) -> TokenView {
        self@
    }
}

/// The node that the notation gives for a name, the label of a parameter, a
/// description and children: a leaf or a branch as `branch` says,
/// parameterized where there is a label, without dependencies.
pub open spec fn noted(
    name: Seq<char>,
    parameter: Option<Seq<char>>,
    branch: bool,
    nodes: Seq<NodeView>,
    comment: Option<Seq<char>>,
) -> NodeView {
    NodeView {
        kind: if branch {
            if parameter is Some {
                NodeKind::StringBranch
            } else {
                NodeKind::Branch
            }
        } else {
            if parameter is Some {
                NodeKind::StringLeaf
            } else {
                NodeKind::Leaf
            }
        },
        name,
        parameter,
        comment,
        depends_on: Seq::empty(),
        nodes,
    }
}

/// The description at `at`, if a text stands there.
pub open spec fn note_at(tokens: Seq<TokenView>, at: int) -> Option<Seq<char>> {
    if 0 <= at < tokens.len() && tokens[at] is Text {
        Some(tokens[at]->Text_0)
    } else {
        None
    }
}

/// The position behind the description at `at`, if a text stands there.
pub open spec fn after_note(tokens: Seq<TokenView>, at: int) -> int {
    if note_at(tokens, at) is Some {
        at + 1
    } else {
        at
    }
}

/// Whether a token of the same kind as `token` stands at `at`.
pub open spec fn stands(tokens: Seq<TokenView>, at: int, token: TokenView) -> bool {
    &&& 0 <= at < tokens.len()
    &&& match token {
        TokenView::Ident(_) => tokens[at] is Ident,
        TokenView::Arrow => tokens[at] is Arrow,
        TokenView::Semicolon => tokens[at] is Semicolon,
        TokenView::Open => tokens[at] is Open,
        TokenView::Close => tokens[at] is Close,
        TokenView::Text(_) => tokens[at] is Text,
    }
}

/// The end of a node whose optional description begins at `at`: the node
/// `node` and the position behind its `;`, or the position where the `;` is
/// missing.
pub open spec fn closed(tokens: Seq<TokenView>, at: int, node: NodeView) -> Result<
    (NodeView, int),
    int,
> {
    let end = after_note(tokens, at);
    if stands(tokens, end, TokenView::Semicolon) {
        Ok((node, end + 1))
    } else {
        Err(end)
    }
}

/// The node that begins at `from` and the position behind it, or the position
/// of the first token that fits no node.
pub open spec fn node_from(tokens: Seq<TokenView>, from: int) -> Result<(NodeView, int), int>
    decreases tokens.len() - from, 0int,
{
    if !stands(tokens, from, TokenView::Ident(Seq::empty())) {
        Err(from)
    } else {
        let name = tokens[from]->Ident_0;
        if !stands(tokens, from + 1, TokenView::Arrow) {
            closed(
                tokens,
                from + 1,
                noted(name, None, false, Seq::empty(), note_at(tokens, from + 1)),
            )
        } else if stands(tokens, from + 2, TokenView::Text(Seq::empty())) {
            let parameter = Some(tokens[from + 2]->Text_0);
            if stands(tokens, from + 3, TokenView::Open) {
                match nodes_from(tokens, from + 4) {
                    Ok((nodes, end)) => closed(
                        tokens,
                        end,
                        noted(name, parameter, true, nodes, note_at(tokens, end)),
                    ),
                    Err(at) => Err(at),
                }
            } else {
                closed(
                    tokens,
                    from + 3,
                    noted(name, parameter, false, Seq::empty(), note_at(tokens, from + 3)),
                )
            }
        } else if stands(tokens, from + 2, TokenView::Open) {
            match nodes_from(tokens, from + 3) {
                Ok((nodes, end)) => closed(
                    tokens,
                    end,
                    noted(name, None, true, nodes, note_at(tokens, end)),
                ),
                Err(at) => Err(at),
            }
        } else {
            Err(from + 2)
        }
    }
}

/// The nodes from `from` up to the `}` that ends them, and the position
/// behind that `}`; or the position of the first token that fits no node.
pub open spec fn nodes_from(tokens: Seq<TokenView>, from: int) -> Result<(Seq<NodeView>, int), int>
    decreases tokens.len() - from, 1int,
{
    if stands(tokens, from, TokenView::Close) {
        Ok((Seq::empty(), from + 1))
    } else {
        match node_from(tokens, from) {
            Err(at) => Err(at),
            Ok((node, next)) => {
                if from < next <= tokens.len() {
                    match nodes_from(tokens, next) {
                        Ok((rest, end)) => Ok((seq![node] + rest, end)),
                        Err(at) => Err(at),
                    }
                } else {
                    Err(next)
                }
            },
        }
    }
}

/// The tree that `tokens` are the notation of: its name and its top-level
/// nodes; or the position of the first token that fits no tree, which is the
/// number of tokens where the notation breaks off.
pub open spec fn tree_of(tokens: Seq<TokenView>) -> Result<(Seq<char>, Seq<NodeView>), int> {
    if !stands(tokens, 0, TokenView::Ident(Seq::empty())) {
        Err(0)
    } else if !stands(tokens, 1, TokenView::Arrow) {
        Err(1)
    } else if !stands(tokens, 2, TokenView::Open) {
        Err(2)
    } else {
        match nodes_from(tokens, 3) {
            Err(at) => Err(at),
            Ok((nodes, end)) => {
                if end == tokens.len() {
                    Ok((tokens[0]->Ident_0, nodes))
                } else {
                    Err(end)
                }
            },
        }
    }
}

/// What a parse of a node ends on stays within the tokens, and a node takes
/// up at least one token.
pub proof fn lemma_node_bounds(tokens: Seq<TokenView>, from: int)
    requires
        0 <= from <= tokens.len(),
    ensures
        match node_from(tokens, from) {
            Ok((_, next)) => from < next <= tokens.len(),
            Err(at) => from <= at <= tokens.len(),
        },
    decreases tokens.len() - from, 0int,
{
    if stands(tokens, from, TokenView::Ident(Seq::empty())) {
        if stands(tokens, from + 1, TokenView::Arrow) {
            if stands(tokens, from + 2, TokenView::Text(Seq::empty())) {
                if stands(tokens, from + 3, TokenView::Open) {
                    lemma_nodes_bounds(tokens, from + 4);
                }
            } else if stands(tokens, from + 2, TokenView::Open) {
                lemma_nodes_bounds(tokens, from + 3);
            }
        }
    }
}

/// What a parse of a list of nodes ends on stays within the tokens.
pub proof fn lemma_nodes_bounds(tokens: Seq<TokenView>, from: int)
    requires
        0 <= from <= tokens.len(),
    ensures
        match nodes_from(tokens, from) {
            Ok((_, end)) => from < end <= tokens.len(),
            Err(at) => from <= at <= tokens.len(),
        },
    decreases tokens.len() - from, 1int,
{
    if !stands(tokens, from, TokenView::Close) {
        lemma_node_bounds(tokens, from);
        match node_from(tokens, from) {
            Ok((_, next)) => {
                lemma_nodes_bounds(tokens, next);
            },
            Err(_) => {},
        }
    }
}

/// The description at `at`, if a text stands there.
fn read_note(tokens: &Vec<TreeToken>, at: usize) -> (r: Option<String>)
    ensures
        r.deep_view() == note_at(tokens.deep_view(), at as int),
{
    if at < tokens.len() {
        match &tokens[at] {
            TreeToken::Text(text) => Some(text.clone()),
            _ => None,
        }
    } else {
        None
    }
}

/// Whether `;` stands at `at`.
fn is_semicolon(tokens: &Vec<TreeToken>, at: usize) -> (r: bool)
    ensures
        r == stands(tokens.deep_view(), at as int, TokenView::Semicolon),
{
    at < tokens.len() && match &tokens[at] {
        TreeToken::Semicolon => true,
        _ => false,
    }
}

/// Whether `=>` stands at `at`.
fn is_arrow(tokens: &Vec<TreeToken>, at: usize) -> (r: bool)
    ensures
        r == stands(tokens.deep_view(), at as int, TokenView::Arrow),
{
    at < tokens.len() && match &tokens[at] {
        TreeToken::Arrow => true,
        _ => false,
    }
}

/// Whether `{` stands at `at`.
fn is_open(tokens: &Vec<TreeToken>, at: usize) -> (r: bool)
    ensures
        r == stands(tokens.deep_view(), at as int, TokenView::Open),
{
    at < tokens.len() && match &tokens[at] {
        TreeToken::Open => true,
        _ => false,
    }
}

/// Whether `}` stands at `at`.
fn is_close(tokens: &Vec<TreeToken>, at: usize) -> (r: bool)
    ensures
        r == stands(tokens.deep_view(), at as int, TokenView::Close),
{
    at < tokens.len() && match &tokens[at] {
        TreeToken::Close => true,
        _ => false,
    }
}

/// The name at `at`, if a name stands there.
fn read_name(tokens: &Vec<TreeToken>, at: usize) -> (r: Option<String>)
    ensures
        match r {
            Some(name) => stands(tokens.deep_view(), at as int, TokenView::Ident(Seq::empty()))
                && name@ == tokens.deep_view()[at as int]->Ident_0,
            None => !stands(tokens.deep_view(), at as int, TokenView::Ident(Seq::empty())),
        },
{
    if at < tokens.len() {
        match &tokens[at] {
            TreeToken::Ident(name) => Some(name.clone()),
            _ => None,
        }
    } else {
        None
    }
}

/// The text at `at`, if a text stands there.
fn read_text(tokens: &Vec<TreeToken>, at: usize) -> (r: Option<String>)
    ensures
        match r {
            Some(text) => stands(tokens.deep_view(), at as int, TokenView::Text(Seq::empty()))
                && text@ == tokens.deep_view()[at as int]->Text_0,
            None => !stands(tokens.deep_view(), at as int, TokenView::Text(Seq::empty())),
        },
{
    if at < tokens.len() {
        match &tokens[at] {
            TreeToken::Text(text) => Some(text.clone()),
            _ => None,
        }
    } else {
        None
    }
}

/// The declared node for what the notation gives.
fn note_node(
    name: String,
    parameter: Option<String>,
    branch: bool,
    nodes: Vec<Node>,
    comment: Option<String>,
) -> (r: Node)
    requires
        branch || nodes.len() == 0,
    ensures
        r@ == noted(name@, parameter.deep_view(), branch, declared_view(nodes@), comment.deep_view()),
{
    let ghost below = declared_view(nodes@);
    let r = match (parameter, branch) {
        (None, false) => Node::Leaf { name, comment, depends_on: Vec::new() },
        (None, true) => Node::Branch { name, nodes, comment, depends_on: Vec::new() },
        (Some(parameter), false) => Node::ParamLeaf {
            name,
            parameter,
            comment,
            depends_on: Vec::new(),
        },
        (Some(parameter), true) => Node::ParamBranch {
            name,
            nodes,
            parameter,
            comment,
            depends_on: Vec::new(),
        },
    };
    assert(r@.depends_on =~= Seq::<Seq<char>>::empty());
    assert(r@.nodes =~= below);
    r
}

/// The end of a node whose optional description begins at `at`.
fn close_node(
    tokens: &Vec<TreeToken>,
    at: usize,
    name: String,
    parameter: Option<String>,
    branch: bool,
    nodes: Vec<Node>,
) -> (r: Result<(Node, usize), usize>)
    requires
        at <= tokens.len(),
        branch || nodes.len() == 0,
    ensures
        match closed(
            tokens.deep_view(),
            at as int,
            noted(
                name@,
                parameter.deep_view(),
                branch,
                declared_view(nodes@),
                note_at(tokens.deep_view(), at as int),
            ),
        ) {
            Ok((node, next)) => r matches Ok((read, end)) && read@ == node && end == next,
            Err(stop) => r matches Err(end) && end == stop,
        },
{
    let comment = read_note(tokens, at);
    let end = match comment {
        Some(_) => at + 1,
        None => at,
    };
    if is_semicolon(tokens, end) {
        Ok((note_node(name, parameter, branch, nodes, comment), end + 1))
    } else {
        Err(end)
    }
}

/// Reads the node that begins at `from`.
pub fn parse_node(tokens: &Vec<TreeToken>, from: usize) -> (r: Result<(Node, usize), usize>)
    ensures
        match node_from(tokens.deep_view(), from as int) {
            Ok((node, next)) => r matches Ok((read, end)) && read@ == node && end == next,
            Err(stop) => r matches Err(end) && end == stop,
        },
    decreases tokens.len() - from, 0int,
{
    let name = match read_name(tokens, from) {
        Some(name) => name,
        None => {
            return Err(from);
        },
    };
    if !is_arrow(tokens, from + 1) {
        let r = close_node(tokens, from + 1, name, None, false, Vec::new());
        assert(declared_view(Seq::<Node>::empty()) =~= Seq::<NodeView>::empty());
        return r;
    }
    match read_text(tokens, from + 2) {
        Some(parameter) => {
            if is_open(tokens, from + 3) {
                proof {
                    lemma_nodes_bounds(tokens.deep_view(), from + 4);
                }
                match parse_nodes(tokens, from + 4) {
                    Ok((nodes, end)) => close_node(tokens, end, name, Some(parameter), true, nodes),
                    Err(at) => Err(at),
                }
            } else {
                let r = close_node(tokens, from + 3, name, Some(parameter), false, Vec::new());
                assert(declared_view(Seq::<Node>::empty()) =~= Seq::<NodeView>::empty());
                r
            }
        },
        None => {
            if is_open(tokens, from + 2) {
                proof {
                    lemma_nodes_bounds(tokens.deep_view(), from + 3);
                }
                match parse_nodes(tokens, from + 3) {
                    Ok((nodes, end)) => close_node(tokens, end, name, None, true, nodes),
                    Err(at) => Err(at),
                }
            } else {
                Err(from + 2)
            }
        },
    }
}

/// Reads the nodes from `from` up to the `}` that ends them.
pub fn parse_nodes(tokens: &Vec<TreeToken>, from: usize) -> (r: Result<(Vec<Node>, usize), usize>)
    ensures
        match nodes_from(tokens.deep_view(), from as int) {
            Ok((nodes, next)) => r matches Ok((read, end)) && declared_view(read@) == nodes && end
                == next,
            Err(stop) => r matches Err(end) && end == stop,
        },
    decreases tokens.len() - from, 1int,
{
    if is_close(tokens, from) {
        assert(declared_view(Seq::<Node>::empty()) =~= Seq::<NodeView>::empty());
        return Ok((Vec::new(), from + 1));
    }
    if from >= tokens.len() {
        assert(node_from(tokens.deep_view(), from as int) is Err);
        assert(node_from(tokens.deep_view(), from as int)->Err_0 == from);
        return Err(from);
    }
    proof {
        lemma_node_bounds(tokens.deep_view(), from as int);
    }
    match parse_node(tokens, from) {
        Err(at) => Err(at),
        Ok((node, next)) => {
            proof {
                lemma_nodes_bounds(tokens.deep_view(), next as int);
            }
            match parse_nodes(tokens, next) {
                Err(at) => Err(at),
                Ok((mut rest, end)) => {
                    let ghost tail = declared_view(rest@);
                    let ghost head = node@;
                    rest.insert(0, node);
                    assert(declared_view(rest@) =~= seq![head] + tail);
                    Ok((rest, end))
                },
            }
        },
    }
}

/// Reads a tree from its notation.
///
/// Fails with `UnexpectedToken`, carrying the position of the first token
/// that fits no tree: the number of tokens where the notation breaks off.
pub fn parse_tree(tokens: &Vec<TreeToken>) -> (r: Result<Tree, Error>)
    ensures
        match tree_of(tokens.deep_view()) {
            Ok((name, nodes)) => r matches Ok(tree) && tree.name@ == name && tree@ == nodes,
            Err(stop) => r matches Err(Error::UnexpectedToken(at)) && at == stop,
        },
{
    let name = match read_name(tokens, 0) {
        Some(name) => name,
        None => {
            return Err(Error::UnexpectedToken(0));
        },
    };
    if !is_arrow(tokens, 1) {
        return Err(Error::UnexpectedToken(1));
    }
    if !is_open(tokens, 2) {
        return Err(Error::UnexpectedToken(2));
    }
    proof {
        lemma_nodes_bounds(tokens.deep_view(), 3);
    }
    match parse_nodes(tokens, 3) {
        Err(at) => Err(Error::UnexpectedToken(at)),
        Ok((nodes, end)) => {
            if end == tokens.len() {
                Ok(Tree { name, nodes })
            } else {
                Err(Error::UnexpectedToken(end))
            }
        },
    }
}

/// How a description is written: as a text, or not at all.
pub open spec fn written_note(comment: Option<Seq<char>>) -> Seq<TokenView> {
    match comment {
        Some(text) => seq![TokenView::Text(text)],
        None => Seq::empty(),
    }
}

/// How the notation writes `node`.
pub open spec fn written(node: NodeView) -> Seq<TokenView>
    decreases node, 0int,
{
    let head = if node.parameter is Some {
        seq![TokenView::Ident(node.name), TokenView::Arrow, TokenView::Text(node.parameter->0)]
    } else if node.kind.is_branch() {
        seq![TokenView::Ident(node.name), TokenView::Arrow]
    } else {
        seq![TokenView::Ident(node.name)]
    };
    let body = if node.kind.is_branch() {
        seq![TokenView::Open] + written_from(node.nodes, 0) + seq![TokenView::Close]
    } else {
        Seq::empty()
    };
    head + body + written_note(node.comment) + seq![TokenView::Semicolon]
}

/// How the notation writes the nodes of `nodes` from the one at `k` on.
pub open spec fn written_from(nodes: Seq<NodeView>, k: int) -> Seq<TokenView>
    decreases nodes, nodes.len() - k,
{
    if k < 0 || k >= nodes.len() {
        Seq::empty()
    } else {
        written(nodes[k]) + written_from(nodes, k + 1)
    }
}

/// How the notation writes the tree `name` with the top-level nodes `nodes`.
pub open spec fn written_tree(name: Seq<char>, nodes: Seq<NodeView>) -> Seq<TokenView> {
    seq![TokenView::Ident(name), TokenView::Arrow, TokenView::Open] + written_from(nodes, 0)
        + seq![TokenView::Close]
}

/// Whether the notation can write `node`: it has a parameter label exactly
/// where its kind is parameterized, children only where its kind is a branch,
/// no dependencies, and the same holds below it.
pub open spec fn notable(node: NodeView) -> bool
    decreases node,
{
    &&& node.kind.is_parameterized() <==> node.parameter is Some
    &&& node.kind.is_branch() || node.nodes.len() == 0
    &&& node.depends_on.len() == 0
    &&& forall|i: int| 0 <= i < node.nodes.len() ==> notable(#[trigger] node.nodes[i])
}

/// A notable node is the node that the notation gives for its parts.
proof fn lemma_notable_is_noted(node: NodeView)
    requires
        notable(node),
    ensures
        node == noted(node.name, node.parameter, node.kind.is_branch(), node.nodes, node.comment),
{
    assert(node.depends_on =~= Seq::<Seq<char>>::empty());
    if !node.kind.is_branch() {
        assert(node.nodes =~= Seq::<NodeView>::empty());
    }
}

/// Reading what was written gives it back: where the tokens from `from` on
/// begin with the notation of a notable node, that node is read, and the
/// parse ends behind its notation.
pub proof fn lemma_read_written_node(tokens: Seq<TokenView>, from: int, node: NodeView)
    requires
        notable(node),
        0 <= from,
        from + written(node).len() <= tokens.len(),
        tokens.subrange(from, from + written(node).len()) == written(node),
    ensures
        node_from(tokens, from) == Ok::<(NodeView, int), int>(
            (node, from + written(node).len()),
        ),
    decreases node, 0int,
{
    let text = written(node);
    let length = text.len() as int;
    assert forall|i: int| 0 <= i < length implies tokens[from + i] == text[i] by {
        assert(tokens.subrange(from, from + length)[i] == tokens[from + i]);
    }
    lemma_notable_is_noted(node);
    let note = written_note(node.comment);
    let head = if node.parameter is Some {
        seq![TokenView::Ident(node.name), TokenView::Arrow, TokenView::Text(node.parameter->0)]
    } else if node.kind.is_branch() {
        seq![TokenView::Ident(node.name), TokenView::Arrow]
    } else {
        seq![TokenView::Ident(node.name)]
    };
    let width = head.len() as int;
    if node.kind.is_branch() {
        let below = written_from(node.nodes, 0);
        let span = below.len() as int;
        let start = from + width + 1;
        assert(text =~= head + (seq![TokenView::Open] + below + seq![TokenView::Close]) + note
            + seq![TokenView::Semicolon]);
        assert(text[0] == TokenView::Ident(node.name));
        assert(text[1] == TokenView::Arrow);
        assert(tokens[from + 0] == text[0]);
        assert(tokens[from + 1] == text[1]);
        if node.parameter is Some {
            assert(text[2] == TokenView::Text(node.parameter->0));
            assert(tokens[from + 2] == text[2]);
        }
        assert(text[width] == TokenView::Open);
        assert(tokens[from + width] == text[width]);
        assert forall|i: int| 0 <= i < span implies tokens.subrange(start, start + span)[i]
            == below[i] by {
            assert(text[width + 1 + i] == below[i]);
            assert(tokens[from + (width + 1 + i)] == text[width + 1 + i]);
        }
        assert(tokens.subrange(start, start + span) =~= below);
        assert(text[width + 1 + span] == TokenView::Close);
        assert(tokens[from + (width + 1 + span)] == text[width + 1 + span]);
        assert(tokens[start + span] is Close);
        lemma_read_written_nodes(tokens, start, node.nodes, 0);
        assert(node.nodes.subrange(0, node.nodes.len() as int) =~= node.nodes);
        let end = start + span + 1;
        assert(nodes_from(tokens, start) == Ok::<(Seq<NodeView>, int), int>((node.nodes, end)));
        if node.comment is Some {
            assert(text[end - from] == TokenView::Text(node.comment->0));
            assert(tokens[from + (end - from)] == text[end - from]);
            assert(text[end - from + 1] == TokenView::Semicolon);
            assert(tokens[from + (end - from + 1)] == text[end - from + 1]);
            assert(length == end - from + 2);
        } else {
            assert(text[end - from] == TokenView::Semicolon);
            assert(tokens[from + (end - from)] == text[end - from]);
            assert(length == end - from + 1);
        }
        assert(note_at(tokens, end) == node.comment);
        assert(closed(tokens, end, node) == Ok::<(NodeView, int), int>((node, from + length)));
        assert(noted(node.name, node.parameter, true, node.nodes, note_at(tokens, end)) == node);
    } else {
        let start = from + width;
        assert(text =~= head + note + seq![TokenView::Semicolon]);
        assert(text[0] == TokenView::Ident(node.name));
        assert(tokens[from + 0] == text[0]);
        if node.parameter is Some {
            assert(text[1] == TokenView::Arrow);
            assert(text[2] == TokenView::Text(node.parameter->0));
            assert(tokens[from + 1] == text[1]);
            assert(tokens[from + 2] == text[2]);
        }
        if node.comment is Some {
            assert(text[width] == TokenView::Text(node.comment->0));
            assert(tokens[from + width] == text[width]);
            assert(text[width + 1] == TokenView::Semicolon);
            assert(tokens[from + (width + 1)] == text[width + 1]);
            assert(length == width + 2);
        } else {
            assert(text[width] == TokenView::Semicolon);
            assert(tokens[from + width] == text[width]);
            assert(length == width + 1);
        }
        assert(note_at(tokens, start) == node.comment);
        assert(node.nodes =~= Seq::<NodeView>::empty());
        assert(closed(tokens, start, node) == Ok::<(NodeView, int), int>((node, from + length)));
        assert(noted(node.name, node.parameter, false, Seq::empty(), note_at(tokens, start))
            == node);
    }
}

/// Reading what was written gives it back, for a list of nodes: where the
/// tokens from `from` on begin with the notation of the notable nodes from
/// `k` on and a `}`, those nodes are read, and the parse ends behind the `}`.
pub proof fn lemma_read_written_nodes(
    tokens: Seq<TokenView>,
    from: int,
    nodes: Seq<NodeView>,
    k: int,
)
    requires
        0 <= k <= nodes.len(),
        forall|i: int| k <= i < nodes.len() ==> notable(#[trigger] nodes[i]),
        0 <= from,
        from + written_from(nodes, k).len() < tokens.len(),
        tokens.subrange(from, from + written_from(nodes, k).len()) == written_from(nodes, k),
        tokens[from + written_from(nodes, k).len()] is Close,
    ensures
        nodes_from(tokens, from) == Ok::<(Seq<NodeView>, int), int>(
            (nodes.subrange(k, nodes.len() as int), from + written_from(nodes, k).len() + 1),
        ),
    decreases nodes, nodes.len() - k,
{
    let text = written_from(nodes, k);
    let length = text.len() as int;
    if k == nodes.len() {
        assert(nodes.subrange(k, nodes.len() as int) =~= Seq::<NodeView>::empty());
    } else {
        let first = written(nodes[k]);
        let rest = written_from(nodes, k + 1);
        assert(text == first + rest);
        assert(first.len() > 0 && first[0] is Ident);
        assert(tokens.subrange(from, from + length)[0] == tokens[from]);
        assert(tokens[from] == text[0]);
        assert(!stands(tokens, from, TokenView::Close));
        assert(tokens.subrange(from, from + first.len()) =~= first) by {
            assert forall|i: int| 0 <= i < first.len() implies tokens.subrange(
                from,
                from + first.len(),
            )[i] == first[i] by {
                assert(tokens.subrange(from, from + length)[i] == tokens[from + i]);
            }
        }
        lemma_read_written_node(tokens, from, nodes[k]);
        let next = from + first.len();
        assert(tokens.subrange(next, next + rest.len()) =~= rest) by {
            assert forall|i: int| 0 <= i < rest.len() implies tokens.subrange(
                next,
                next + rest.len(),
            )[i] == rest[i] by {
                assert(tokens.subrange(from, from + length)[first.len() + i] == tokens[from
                    + first.len() + i]);
            }
        }
        lemma_read_written_nodes(tokens, next, nodes, k + 1);
        assert(seq![nodes[k]] + nodes.subrange(k + 1, nodes.len() as int) =~= nodes.subrange(
            k,
            nodes.len() as int,
        ));
    }
}

/// Reading the notation of a tree of notable nodes gives the tree back.
pub proof fn lemma_read_written_tree(name: Seq<char>, nodes: Seq<NodeView>)
    requires
        forall|i: int| 0 <= i < nodes.len() ==> notable(#[trigger] nodes[i]),
    ensures
        tree_of(written_tree(name, nodes)) == Ok::<(Seq<char>, Seq<NodeView>), int>((name, nodes)),
{
    let tokens = written_tree(name, nodes);
    let below = written_from(nodes, 0);
    assert(tokens.subrange(3, 3 + below.len() as int) =~= below);
    assert(tokens[3 + below.len() as int] is Close);
    lemma_read_written_nodes(tokens, 3, nodes, 0);
    assert(nodes.subrange(0, nodes.len() as int) =~= nodes);
}

/// What is read was written: the node that a parse gives is notable, and the
/// tokens that the parse went over are its notation.
pub proof fn lemma_written_is_read_node(tokens: Seq<TokenView>, from: int)
    requires
        0 <= from <= tokens.len(),
    ensures
        node_from(tokens, from) matches Ok((node, next)) ==> notable(node) && from < next
            <= tokens.len() && tokens.subrange(from, next) == written(node),
    decreases tokens.len() - from, 0int,
{
    lemma_node_bounds(tokens, from);
    match node_from(tokens, from) {
        Ok((node, next)) => {
            let text = written(node);
            if stands(tokens, from + 1, TokenView::Arrow) && (stands(tokens, from + 3, TokenView::Open)
                || stands(tokens, from + 2, TokenView::Open)) {
                let start = if stands(tokens, from + 2, TokenView::Text(Seq::empty())) {
                    from + 4
                } else {
                    from + 3
                };
                lemma_written_is_read_nodes(tokens, start);
                lemma_nodes_bounds(tokens, start);
                let end = nodes_from(tokens, start)->Ok_0.1;
                let below = written_from(node.nodes, 0);
                assert(tokens.subrange(start, end - 1) == below);
                assert forall|i: int| 0 <= i < below.len() implies tokens[start + i] == below[i] by {
                    assert(tokens.subrange(start, end - 1)[i] == tokens[start + i]);
                }
                assert(tokens.subrange(from, next) =~= text);
            } else {
                assert(tokens.subrange(from, next) =~= text);
            }
        },
        Err(_) => {},
    }
}

/// What is read was written, for a list of nodes: the nodes that a parse
/// gives are notable, and the tokens that the parse went over are their
/// notation and a `}`.
pub proof fn lemma_written_is_read_nodes(tokens: Seq<TokenView>, from: int)
    requires
        0 <= from <= tokens.len(),
    ensures
        nodes_from(tokens, from) matches Ok((nodes, end)) ==> {
            &&& from < end <= tokens.len()
            &&& forall|i: int| 0 <= i < nodes.len() ==> notable(#[trigger] nodes[i])
            &&& tokens.subrange(from, end - 1) == written_from(nodes, 0)
            &&& tokens[end - 1] is Close
        },
    decreases tokens.len() - from, 1int,
{
    lemma_nodes_bounds(tokens, from);
    match nodes_from(tokens, from) {
        Ok((nodes, end)) => {
            if stands(tokens, from, TokenView::Close) {
                assert(tokens.subrange(from, end - 1) =~= written_from(nodes, 0));
            } else {
                lemma_node_bounds(tokens, from);
                lemma_written_is_read_node(tokens, from);
                let (node, next) = node_from(tokens, from)->Ok_0;
                lemma_written_is_read_nodes(tokens, next);
                let rest = nodes_from(tokens, next)->Ok_0.0;
                assert(nodes == seq![node] + rest);
                lemma_written_shifts(nodes, rest, 0);
                assert(written_from(nodes, 0) == written(node) + written_from(nodes, 1));
                assert(tokens.subrange(from, end - 1) =~= tokens.subrange(from, next)
                    + tokens.subrange(next, end - 1));
                assert forall|i: int| 0 <= i < nodes.len() implies notable(#[trigger] nodes[i]) by {
                    if i > 0 {
                        assert(nodes[i] == rest[i - 1]);
                    }
                }
            }
        },
        Err(_) => {},
    }
}

/// The notation of the nodes behind the first is the notation of the list
/// without its first node.
proof fn lemma_written_shifts(nodes: Seq<NodeView>, rest: Seq<NodeView>, k: int)
    requires
        nodes.len() == rest.len() + 1,
        forall|i: int| 0 <= i < rest.len() ==> rest[i] == nodes[i + 1],
        0 <= k <= rest.len(),
    ensures
        written_from(nodes, k + 1) == written_from(rest, k),
    decreases rest.len() - k,
{
    if k < rest.len() {
        lemma_written_shifts(nodes, rest, k + 1);
    }
}

/// The tokens that are read as a tree are the notation of that tree, and the
/// nodes of the tree are notable.
pub proof fn lemma_written_is_read_tree(tokens: Seq<TokenView>)
    ensures
        tree_of(tokens) matches Ok((name, nodes)) ==> tokens == written_tree(name, nodes) && forall|
            i: int,
        |
            0 <= i < nodes.len() ==> notable(#[trigger] nodes[i]),
{
    match tree_of(tokens) {
        Ok((name, nodes)) => {
            lemma_written_is_read_nodes(tokens, 3);
            let below = written_from(nodes, 0);
            assert(tokens.subrange(3, tokens.len() - 1) == below);
            assert forall|i: int| 0 <= i < below.len() implies tokens[3 + i] == below[i] by {
                assert(tokens.subrange(3, tokens.len() - 1)[i] == tokens[3 + i]);
            }
            assert(tokens =~= written_tree(name, nodes));
        },
        Err(_) => {},
    }
}

} // verus!
