use abyssal::error::Error;
use abyssal::models::permission::permissions;
use abyssal::schema::compiled::{NodeKind, Schema};
use abyssal::schema::describe::PermissionsDescription;
use abyssal::schema::node::{impl_permissions, render_level, usable_segment, Node, Tree};

fn leaf(name: &str) -> Node {
    Node::Leaf { name: name.to_string(), comment: None, depends_on: vec![] }
}

fn branch(name: &str, nodes: Vec<Node>) -> Node {
    Node::Branch { name: name.to_string(), nodes, comment: None, depends_on: vec![] }
}

fn tree(nodes: Vec<Node>) -> Tree {
    Tree { name: "Tree".to_string(), nodes }
}

fn schema() -> Schema {
    permissions().unwrap()
}

fn name_of(description: &PermissionsDescription) -> &str {
    match description {
        PermissionsDescription::Leaf { name, .. } => name,
        PermissionsDescription::Branch { name, .. } => name,
        PermissionsDescription::StringLeaf { name, .. } => name,
        PermissionsDescription::StringBranch { name, .. } => name,
    }
}

#[test]
fn render_gives_snake_case_segments() {
    let node = Node::ParamBranch {
        name: "UploadTargets".to_string(),
        nodes: vec![leaf("ViewAll"), leaf("XMLExport")],
        parameter: "target".to_string(),
        comment: Some("Upload targets".to_string()),
        depends_on: vec!["files.list".to_string()],
    };
    let compiled = node.render().unwrap();
    assert_eq!(compiled.kind, NodeKind::StringBranch);
    assert_eq!(compiled.name, "UploadTargets");
    assert_eq!(compiled.segment, "upload_targets");
    assert_eq!(compiled.parameter.as_deref(), Some("target"));
    assert_eq!(compiled.comment.as_deref(), Some("Upload targets"));
    assert_eq!(compiled.depends_on, vec!["files.list".to_string()]);
    assert_eq!(compiled.nodes.len(), 2);
    assert_eq!(compiled.nodes[0].segment, "view_all");
    assert_eq!(compiled.nodes[0].kind, NodeKind::Leaf);
    assert_eq!(compiled.nodes[1].segment, "xml_export");
}

#[test]
fn render_of_a_parameterized_leaf() {
    let node = Node::ParamLeaf {
        name: "Download".to_string(),
        parameter: "file".to_string(),
        comment: None,
        depends_on: vec![],
    };
    assert_eq!(node.name(), "Download");
    assert_eq!(node.kind(), NodeKind::StringLeaf);
    let compiled = node.render().unwrap();
    assert_eq!(compiled.kind, NodeKind::StringLeaf);
    assert_eq!(compiled.segment, "download");
    assert_eq!(compiled.parameter.as_deref(), Some("file"));
    assert!(compiled.nodes.is_empty());
}

#[test]
fn siblings_with_one_segment_are_refused() {
    let result = impl_permissions(&tree(vec![leaf("FooBar"), leaf("foo_bar")]));
    match result {
        Err(Error::DuplicateSegment(segment)) => assert_eq!(segment, "foo_bar"),
        other => panic!("expected a duplicate segment, got {:?}", other),
    }
    let nested = impl_permissions(&tree(vec![branch("Top", vec![leaf("A"), leaf("B"), leaf("a")])]));
    match nested {
        Err(Error::DuplicateSegment(segment)) => assert_eq!(segment, "a"),
        other => panic!("expected a duplicate segment, got {:?}", other),
    }
}

#[test]
fn the_same_segment_under_different_parents_is_fine() {
    let compiled = impl_permissions(&tree(vec![
        branch("Users", vec![leaf("View")]),
        branch("Groups", vec![leaf("View")]),
    ]))
    .unwrap();
    assert!(compiled.validate());
    assert_eq!(compiled.nodes[1].nodes[0].segment, "view");
}

#[test]
fn names_without_a_usable_segment_are_refused() {
    for name in ["", "*", "a.b"] {
        match impl_permissions(&tree(vec![leaf("Fine"), leaf(name)])) {
            Err(Error::InvalidSegment(rejected)) => assert_eq!(rejected, name),
            other => panic!("expected an invalid segment for {:?}, got {:?}", name, other),
        }
    }
    match render_level(&vec![branch("Top", vec![leaf("*")]), leaf("top")]) {
        Err(Error::InvalidSegment(rejected)) => assert_eq!(rejected, "*"),
        other => panic!("expected an invalid segment, got {:?}", other),
    }
}

#[test]
fn the_first_fault_in_order_is_reported() {
    match impl_permissions(&tree(vec![leaf("A"), leaf("a"), leaf("*")])) {
        Err(Error::DuplicateSegment(segment)) => assert_eq!(segment, "a"),
        other => panic!("expected a duplicate segment, got {:?}", other),
    }
    match impl_permissions(&tree(vec![leaf("A"), branch("a", vec![leaf("*")])])) {
        Err(Error::InvalidSegment(rejected)) => assert_eq!(rejected, "*"),
        other => panic!("expected an invalid segment, got {:?}", other),
    }
}

#[test]
fn usable_segments() {
    assert!(usable_segment("view"));
    assert!(usable_segment("upload_targets"));
    assert!(usable_segment("**"));
    assert!(!usable_segment(""));
    assert!(!usable_segment("*"));
    assert!(!usable_segment("a.b"));
    assert!(!usable_segment("."));
}

#[test]
fn describe_mirrors_the_declaration() {
    let description = schema().describe();
    match &description {
        PermissionsDescription::Branch { name, nodes, comment, depends_on } => {
            assert_eq!(name, "Permissions");
            assert_eq!(comment, &None);
            assert!(depends_on.is_empty());
            assert_eq!(nodes.len(), 1);
            match &nodes[0] {
                PermissionsDescription::Branch { name, nodes, comment, .. } => {
                    assert_eq!(name, "Authentication");
                    assert_eq!(comment, &None);
                    let names: Vec<&str> = nodes.iter().map(name_of).collect();
                    assert_eq!(names, vec!["Users", "Oidc", "Applications"]);
                    match &nodes[2] {
                        PermissionsDescription::Branch { nodes, comment, .. } => {
                            assert_eq!(comment.as_deref(), Some("Allows modification of API clients"));
                            match &nodes[0] {
                                PermissionsDescription::Leaf { name, comment, .. } => {
                                    assert_eq!(name, "Owned");
                                    assert_eq!(
                                        comment.as_deref(),
                                        Some("Only allows management of owned applications")
                                    );
                                }
                                other => panic!("expected a leaf, got {:?}", other),
                            }
                            match &nodes[1] {
                                PermissionsDescription::StringBranch { name, parameter, nodes, .. } => {
                                    assert_eq!(name, "Others");
                                    assert_eq!(parameter, "application");
                                    assert_eq!(name_of(&nodes[0]), "View");
                                }
                                other => panic!("expected a parameterized branch, got {:?}", other),
                            }
                        }
                        other => panic!("expected a branch, got {:?}", other),
                    }
                }
                other => panic!("expected a branch, got {:?}", other),
            }
        }
        other => panic!("expected a branch, got {:?}", other),
    }
}

fn found(path: &str) -> Option<String> {
    schema().at_path(path).map(|d| name_of(&d).to_string())
}

#[test]
fn at_path_follows_segments() {
    assert_eq!(found("authentication").as_deref(), Some("Authentication"));
    assert_eq!(found("authentication.users").as_deref(), Some("Users"));
    assert_eq!(found("authentication.users.view").as_deref(), Some("View"));
    assert_eq!(found("authentication.applications.owned").as_deref(), Some("Owned"));
    assert_eq!(found("authentication.applications.others").as_deref(), Some("Others"));
    assert_eq!(found("authentication.groups"), None);
    assert_eq!(found("bogus"), None);
    assert_eq!(found(""), None);
}

#[test]
fn at_path_wildcards() {
    assert_eq!(found("*").as_deref(), Some("Permissions"));
    assert_eq!(found("authentication.*").as_deref(), Some("Authentication"));
    assert_eq!(found("authentication.users.*").as_deref(), Some("Users"));
    assert_eq!(found("authentication.users.view.*"), None);
    assert_eq!(found("authentication.users.view.more"), None);
    assert_eq!(found("authentication.*.view"), None);
    assert_eq!(found("*.users"), None);
}

#[test]
fn at_path_parameters() {
    assert_eq!(found("authentication.applications.others.backup").as_deref(), Some("Others"));
    assert_eq!(found("authentication.applications.others.*").as_deref(), Some("Others"));
    assert_eq!(found("authentication.applications.others.backup.view").as_deref(), Some("View"));
    assert_eq!(found("authentication.applications.others.*.view").as_deref(), Some("View"));
    assert_eq!(found("authentication.applications.others.backup.*").as_deref(), Some("Others"));
    assert_eq!(found("authentication.applications.others.*.*").as_deref(), Some("Others"));
    assert_eq!(found("authentication.applications.others.backup.edit"), None);
    assert_eq!(found("authentication.applications.others.backup.view.more"), None);
}

#[test]
fn names_of_many_shapes_get_a_segment() {
    let cases = [
        ("UploadTargets", "upload_targets"),
        ("upload targets", "upload_targets"),
        ("upload-targets", "upload_targets"),
        ("HTTPServer", "http_server"),
        ("Größe", "größe"),
        ("v2", "v_2"),
        ("already_snake", "already_snake"),
    ];
    for (name, segment) in cases {
        let compiled = leaf(name).render().unwrap();
        assert_eq!(compiled.name, name);
        assert_eq!(compiled.segment, segment);
    }
    let long = "Word".repeat(200);
    assert_eq!(leaf(&long).render().unwrap().segment.len(), 200 * 5 - 1);
    assert!(leaf("🙂").render().is_ok());
}
