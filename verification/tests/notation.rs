use abyssal::error::Error;
use abyssal::models::permission::permissions_tree;
use abyssal::schema::compiled::NodeKind;
use abyssal::schema::lexer::tokenize;
use abyssal::schema::node::{impl_permissions, Node, Tree};
use abyssal::schema::notation::{parse_node, parse_nodes, parse_tree, TreeToken};

const PERMISSIONS: &str = r#"
Permissions => {
    Authentication => {
        Users => {
            View "Only allows viewing user configurations";
        } "Allows modification of user configurations";
        Oidc => {
            View "Only allows viewing OIDC provider information";
        } "Allows modification of OIDC provider(s)";
        Applications => {
            Owned "Only allows management of owned applications";
            Others => "application" {
                View "Only allows viewing this application";
            } "Allows management of other applications (app name in <application>)";
        } "Allows modification of API clients";
    };
}
"#;

fn ident(name: &str) -> TreeToken {
    TreeToken::Ident(name.to_string())
}

fn text(content: &str) -> TreeToken {
    TreeToken::Text(content.to_string())
}

fn position(result: Result<Tree, Error>) -> usize {
    match result {
        Err(Error::UnexpectedToken(at)) => at,
        other => panic!("expected an unexpected token, got {:?}", other),
    }
}

fn lexical(result: Result<Vec<TreeToken>, Error>) -> usize {
    match result {
        Err(Error::UnexpectedToken(at)) => at,
        other => panic!("expected an unexpected token, got {:?}", other),
    }
}

#[test]
fn tokens_of_a_small_tree() {
    let tokens = tokenize("Tree => { A; B_2 \"two\"; }").unwrap();
    assert_eq!(
        tokens,
        vec![
            ident("Tree"),
            TreeToken::Arrow,
            TreeToken::Open,
            ident("A"),
            TreeToken::Semicolon,
            ident("B_2"),
            text("two"),
            TreeToken::Semicolon,
            TreeToken::Close,
        ]
    );
}

#[test]
fn tokens_need_no_spaces() {
    assert_eq!(
        tokenize("a=>{b;}\"c\"_d9").unwrap(),
        vec![
            ident("a"),
            TreeToken::Arrow,
            TreeToken::Open,
            ident("b"),
            TreeToken::Semicolon,
            TreeToken::Close,
            text("c"),
            ident("_d9"),
        ]
    );
    assert_eq!(tokenize("").unwrap(), vec![]);
    assert_eq!(tokenize(" \t\r\n").unwrap(), vec![]);
}

#[test]
fn escapes_in_texts() {
    assert_eq!(tokenize(r#""a\"b""#).unwrap(), vec![text("a\"b")]);
    assert_eq!(tokenize(r#""a\\b""#).unwrap(), vec![text("a\\b")]);
    assert_eq!(tokenize(r#""a\nb\tc""#).unwrap(), vec![text("a\nb\tc")]);
    assert_eq!(tokenize(r#""""#).unwrap(), vec![text("")]);
    assert_eq!(tokenize("\"größer; {als} =>\"").unwrap(), vec![text("größer; {als} =>")]);
}

#[test]
fn characters_that_begin_no_token() {
    assert_eq!(lexical(tokenize("a = b")), 2);
    assert_eq!(lexical(tokenize("a =")), 2);
    assert_eq!(lexical(tokenize("9a")), 0);
    assert_eq!(lexical(tokenize("a, b")), 1);
    assert_eq!(lexical(tokenize("ä")), 0);
    assert_eq!(lexical(tokenize("a \"open")), 7);
    assert_eq!(lexical(tokenize(r#""a\qb""#)), 3);
    assert_eq!(lexical(tokenize("\"a\\")), 3);
}

#[test]
fn the_four_kinds_of_node() {
    let tree = Tree::parse(
        r#"T => {
            Plain;
            Described "a leaf";
            Group => { Inner; } "a branch";
            Bare => { };
            File => "name";
            Named => "name" "a parameterized leaf";
            Under => "owner" { One; Two "second"; } "a parameterized branch";
        }"#,
    )
    .unwrap();
    assert_eq!(tree.name, "T");
    assert_eq!(tree.nodes.len(), 7);
    let kinds: Vec<NodeKind> = tree.nodes.iter().map(|n| n.kind()).collect();
    assert_eq!(
        kinds,
        vec![
            NodeKind::Leaf,
            NodeKind::Leaf,
            NodeKind::Branch,
            NodeKind::Branch,
            NodeKind::StringLeaf,
            NodeKind::StringLeaf,
            NodeKind::StringBranch,
        ]
    );
    match &tree.nodes[0] {
        Node::Leaf { name, comment, depends_on } => {
            assert_eq!(name, "Plain");
            assert_eq!(comment, &None);
            assert!(depends_on.is_empty());
        }
        other => panic!("expected a leaf, got {:?}", other),
    }
    match &tree.nodes[1] {
        Node::Leaf { comment, .. } => assert_eq!(comment.as_deref(), Some("a leaf")),
        other => panic!("expected a leaf, got {:?}", other),
    }
    match &tree.nodes[2] {
        Node::Branch { name, nodes, comment, .. } => {
            assert_eq!(name, "Group");
            assert_eq!(nodes.len(), 1);
            assert_eq!(nodes[0].name(), "Inner");
            assert_eq!(comment.as_deref(), Some("a branch"));
        }
        other => panic!("expected a branch, got {:?}", other),
    }
    match &tree.nodes[3] {
        Node::Branch { nodes, comment, .. } => {
            assert!(nodes.is_empty());
            assert_eq!(comment, &None);
        }
        other => panic!("expected a branch, got {:?}", other),
    }
    match &tree.nodes[4] {
        Node::ParamLeaf { parameter, comment, .. } => {
            assert_eq!(parameter, "name");
            assert_eq!(comment, &None);
        }
        other => panic!("expected a parameterized leaf, got {:?}", other),
    }
    match &tree.nodes[5] {
        Node::ParamLeaf { parameter, comment, .. } => {
            assert_eq!(parameter, "name");
            assert_eq!(comment.as_deref(), Some("a parameterized leaf"));
        }
        other => panic!("expected a parameterized leaf, got {:?}", other),
    }
    match &tree.nodes[6] {
        Node::ParamBranch { name, nodes, parameter, comment, .. } => {
            assert_eq!(name, "Under");
            assert_eq!(parameter, "owner");
            assert_eq!(comment.as_deref(), Some("a parameterized branch"));
            assert_eq!(nodes.len(), 2);
            assert_eq!(nodes[0].name(), "One");
            assert_eq!(nodes[1].name(), "Two");
        }
        other => panic!("expected a parameterized branch, got {:?}", other),
    }
}

#[test]
fn the_tree_of_the_service_in_its_notation() {
    let read = Tree::parse(PERMISSIONS).unwrap();
    let built = permissions_tree();
    assert_eq!(format!("{:?}", read), format!("{:?}", built));
    let schema = impl_permissions(&read).unwrap();
    assert_eq!(schema.decode("authentication.applications.owned").map(|p| schema.encode(&p)).unwrap(),
        "authentication.applications.owned");
}

#[test]
fn tokens_that_are_no_tree() {
    let parse = |source: &str| Tree::parse(source);
    assert_eq!(position(parse("")), 0);
    assert_eq!(position(parse("=> { }")), 0);
    assert_eq!(position(parse("T { }")), 1);
    assert_eq!(position(parse("T => A;")), 2);
    assert_eq!(position(parse("T => {")), 3);
    assert_eq!(position(parse("T => { A }")), 4);
    assert_eq!(position(parse("T => { A \"one\" \"two\"; }")), 5);
    assert_eq!(position(parse("T => { A => ; }")), 5);
    assert_eq!(position(parse("T => { A => { B; }")), 9);
    assert_eq!(position(parse("T => { A => { B; } }")), 9);
    assert_eq!(position(parse("T => { A => \"p\" \"c\" \"d\"; }")), 7);
    assert_eq!(position(parse("T => { A; } ;")), 6);
    assert_eq!(position(parse("T => { A; } B")), 6);
    assert_eq!(position(parse("T => { ; }")), 3);
}

#[test]
fn nodes_are_read_from_a_position() {
    let tokens = tokenize("X; A \"a\"; B => { C; }; }").unwrap();
    match parse_node(&tokens, 2) {
        Ok((node, end)) => {
            assert_eq!(node.name(), "A");
            assert_eq!(end, 5);
        }
        other => panic!("expected a node, got {:?}", other),
    }
    match parse_nodes(&tokens, 0) {
        Ok((nodes, end)) => {
            assert_eq!(nodes.len(), 3);
            assert_eq!(nodes[2].name(), "B");
            assert_eq!(end, tokens.len());
        }
        other => panic!("expected nodes, got {:?}", other),
    }
    assert!(matches!(parse_node(&tokens, 1), Err(1)));
    assert!(matches!(parse_node(&tokens, tokens.len()), Err(at) if at == tokens.len()));
    assert!(matches!(parse_tree(&tokens), Err(Error::UnexpectedToken(1))));
}
