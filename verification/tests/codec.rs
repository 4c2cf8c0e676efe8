use abyssal::error::Error;
use abyssal::models::permission::{permissions, permissions_tree};
use abyssal::schema::codec::PermissionPath;
use abyssal::schema::compiled::{NodeKind, Schema, SchemaNode};

fn schema() -> Schema {
    match permissions() {
        Ok(schema) => schema,
        Err(error) => panic!("the permission tree does not compile: {:?}", error),
    }
}

fn boxed(path: PermissionPath) -> Box<PermissionPath> {
    Box::new(path)
}

// Positions in the permission tree.
const AUTHENTICATION: usize = 0;
const USERS: usize = 0;
const OIDC: usize = 1;
const APPLICATIONS: usize = 2;
const VIEW: usize = 0;
const OWNED: usize = 0;
const OTHERS: usize = 1;

fn authentication(child: PermissionPath) -> PermissionPath {
    PermissionPath::Branch { node: AUTHENTICATION, child: boxed(child) }
}

fn users_view() -> PermissionPath {
    authentication(PermissionPath::Branch {
        node: USERS,
        child: boxed(PermissionPath::Leaf { node: VIEW }),
    })
}

fn others(parameter: Option<&str>, child: PermissionPath) -> PermissionPath {
    authentication(PermissionPath::Branch {
        node: APPLICATIONS,
        child: boxed(PermissionPath::StringBranch {
            node: OTHERS,
            parameter: parameter.map(|p| p.to_string()),
            child: boxed(child),
        }),
    })
}

fn unknown(result: Result<PermissionPath, Error>) -> String {
    match result {
        Err(Error::UnknownPermission(segment)) => segment,
        other => panic!("expected an unknown permission, got {:?}", other),
    }
}

#[test]
fn compiled_tree_has_snake_case_segments() {
    let schema = schema();
    assert_eq!(schema.name, "Permissions");
    assert_eq!(schema.nodes.len(), 1);
    let authentication = &schema.nodes[0];
    assert_eq!(authentication.name, "Authentication");
    assert_eq!(authentication.segment, "authentication");
    assert_eq!(authentication.kind, NodeKind::Branch);
    assert_eq!(authentication.comment, None);
    let segments: Vec<&str> = authentication.nodes.iter().map(|n| n.segment.as_str()).collect();
    assert_eq!(segments, vec!["users", "oidc", "applications"]);
    let applications = &authentication.nodes[2];
    assert_eq!(
        applications.comment.as_deref(),
        Some("Allows modification of API clients")
    );
    let others = &applications.nodes[1];
    assert_eq!(others.kind, NodeKind::StringBranch);
    assert_eq!(others.segment, "others");
    assert_eq!(others.parameter.as_deref(), Some("application"));
    assert_eq!(others.nodes[0].segment, "view");
    assert_eq!(others.nodes[0].kind, NodeKind::Leaf);
    assert!(schema.validate());
}

#[test]
fn encode_all() {
    assert_eq!(schema().encode(&PermissionPath::All), "*");
}

#[test]
fn encode_leaf_below_branches() {
    assert_eq!(schema().encode(&users_view()), "authentication.users.view");
    let owned = authentication(PermissionPath::Branch {
        node: APPLICATIONS,
        child: boxed(PermissionPath::Leaf { node: OWNED }),
    });
    assert_eq!(schema().encode(&owned), "authentication.applications.owned");
}

#[test]
fn wildcard_collapse() {
    let schema = schema();
    assert_eq!(schema.encode(&authentication(PermissionPath::All)), "authentication.*");
    let oidc = authentication(PermissionPath::Branch {
        node: OIDC,
        child: boxed(PermissionPath::All),
    });
    assert_eq!(schema.encode(&oidc), "authentication.oidc.*");
    assert_eq!(schema.decode("*").unwrap(), PermissionPath::All);
}

#[test]
fn encode_parameterized_branch() {
    let schema = schema();
    assert_eq!(
        schema.encode(&others(Some("backup"), PermissionPath::All)),
        "authentication.applications.others.backup.*"
    );
    assert_eq!(
        schema.encode(&others(Some("backup"), PermissionPath::Leaf { node: VIEW })),
        "authentication.applications.others.backup.view"
    );
    assert_eq!(
        schema.encode(&others(None, PermissionPath::All)),
        "authentication.applications.others.*"
    );
    assert_eq!(
        schema.encode(&others(None, PermissionPath::Leaf { node: VIEW })),
        "authentication.applications.others.*.view"
    );
}

#[test]
fn decode_examples() {
    let schema = schema();
    assert_eq!(schema.decode("authentication.users.view").unwrap(), users_view());
    assert_eq!(schema.decode("authentication").unwrap(), authentication(PermissionPath::All));
    assert_eq!(schema.decode("authentication.*").unwrap(), authentication(PermissionPath::All));
    assert_eq!(
        schema.decode("authentication.users").unwrap(),
        authentication(PermissionPath::Branch { node: USERS, child: boxed(PermissionPath::All) })
    );
    assert_eq!(
        schema.decode("authentication.applications.others").unwrap(),
        others(None, PermissionPath::All)
    );
    assert_eq!(
        schema.decode("authentication.applications.others.*").unwrap(),
        others(None, PermissionPath::All)
    );
    assert_eq!(
        schema.decode("authentication.applications.others.backup").unwrap(),
        others(Some("backup"), PermissionPath::All)
    );
    assert_eq!(
        schema.decode("authentication.applications.others.backup.*").unwrap(),
        others(Some("backup"), PermissionPath::All)
    );
    assert_eq!(
        schema.decode("authentication.applications.others.backup.view").unwrap(),
        others(Some("backup"), PermissionPath::Leaf { node: VIEW })
    );
    assert_eq!(
        schema.decode("authentication.applications.others.*.view").unwrap(),
        others(None, PermissionPath::Leaf { node: VIEW })
    );
}

#[test]
fn a_leaf_ignores_what_follows_it() {
    assert_eq!(schema().decode("authentication.users.view.more").unwrap(), users_view());
}

#[test]
fn unknown_segment() {
    assert_eq!(unknown(schema().decode("bogus.segment")), "bogus");
    assert_eq!(unknown(Schema { name: "Empty".to_string(), nodes: vec![] }.decode("bogus.segment")), "bogus");
}

#[test]
fn unknown_segment_below_the_top() {
    let schema = schema();
    assert_eq!(unknown(schema.decode("authentication.groups.view")), "groups");
    assert_eq!(unknown(schema.decode("authentication.users.edit")), "edit");
    assert_eq!(unknown(schema.decode("authentication.applications.others.backup.edit")), "edit");
    assert_eq!(unknown(schema.decode("")), "");
    assert_eq!(unknown(schema.decode("Authentication")), "Authentication");
    assert_eq!(unknown(schema.decode(".authentication")), "");
}

#[test]
fn round_trip() {
    let schema = schema();
    let paths = vec![
        PermissionPath::All,
        authentication(PermissionPath::All),
        users_view(),
        authentication(PermissionPath::Branch { node: OIDC, child: boxed(PermissionPath::All) }),
        authentication(PermissionPath::Branch {
            node: OIDC,
            child: boxed(PermissionPath::Leaf { node: VIEW }),
        }),
        authentication(PermissionPath::Branch {
            node: APPLICATIONS,
            child: boxed(PermissionPath::Leaf { node: OWNED }),
        }),
        others(None, PermissionPath::All),
        others(None, PermissionPath::Leaf { node: VIEW }),
        others(Some("backup"), PermissionPath::All),
        others(Some("backup"), PermissionPath::Leaf { node: VIEW }),
        others(Some(""), PermissionPath::Leaf { node: VIEW }),
        others(Some("grüße"), PermissionPath::All),
    ];
    for path in paths {
        assert!(schema.accepts(&path));
        assert!(schema.is_valid(&path));
        let text = schema.encode(&path);
        let decoded = schema.decode(&text).unwrap();
        assert_eq!(decoded, path);
        assert_eq!(schema.encode(&decoded), text);
    }
}

#[test]
fn paths_that_do_not_read_back_are_not_valid() {
    let schema = schema();
    let star = others(Some("*"), PermissionPath::Leaf { node: VIEW });
    assert!(schema.accepts(&star));
    assert!(!schema.is_valid(&star));
    assert_eq!(
        schema.decode(&schema.encode(&star)).unwrap(),
        others(None, PermissionPath::Leaf { node: VIEW })
    );
    let dotted = others(Some("a.b"), PermissionPath::All);
    assert!(schema.accepts(&dotted));
    assert!(!schema.is_valid(&dotted));
}

#[test]
fn paths_of_another_shape_are_not_accepted() {
    let schema = schema();
    assert!(!schema.accepts(&PermissionPath::Leaf { node: AUTHENTICATION }));
    assert!(!schema.accepts(&PermissionPath::Branch { node: 1, child: boxed(PermissionPath::All) }));
    assert!(!schema.accepts(&authentication(PermissionPath::Leaf { node: USERS })));
    assert!(!schema.accepts(&authentication(PermissionPath::StringLeaf {
        node: USERS,
        parameter: None
    })));
    assert!(!schema.accepts(&others(None, PermissionPath::Leaf { node: 1 })));
    assert!(!schema.is_valid(&PermissionPath::Leaf { node: 7 }));
}

fn node(kind: NodeKind, name: &str, segment: &str, nodes: Vec<SchemaNode>) -> SchemaNode {
    let parameter = match kind {
        NodeKind::StringLeaf | NodeKind::StringBranch => Some("value".to_string()),
        _ => None,
    };
    SchemaNode {
        kind,
        name: name.to_string(),
        segment: segment.to_string(),
        parameter,
        comment: None,
        depends_on: vec![],
        nodes,
    }
}

fn files() -> Schema {
    Schema {
        name: "Files".to_string(),
        nodes: vec![
            node(NodeKind::StringLeaf, "Download", "download", vec![]),
            node(NodeKind::Leaf, "List", "list", vec![]),
        ],
    }
}

#[test]
fn parameterized_leaf() {
    let schema = files();
    assert!(schema.validate());
    let any = PermissionPath::StringLeaf { node: 0, parameter: None };
    let one = PermissionPath::StringLeaf { node: 0, parameter: Some("report.pdf".to_string()) };
    assert_eq!(schema.encode(&any), "download.*");
    assert_eq!(schema.encode(&one), "download.report.pdf");
    assert_eq!(schema.decode("download").unwrap(), any);
    assert_eq!(schema.decode("download.*").unwrap(), any);
    assert_eq!(schema.decode("download.report.pdf").unwrap(), one);
    assert!(schema.is_valid(&one));
    assert!(schema.is_valid(&any));
    assert!(!schema.is_valid(&PermissionPath::StringLeaf { node: 0, parameter: Some("*".to_string()) }));
    assert_eq!(schema.decode("list").unwrap(), PermissionPath::Leaf { node: 1 });
    assert_eq!(schema.encode(&PermissionPath::Leaf { node: 1 }), "list");
}

#[test]
fn the_first_of_two_equal_segments_is_found() {
    let schema = Schema {
        name: "Twice".to_string(),
        nodes: vec![
            node(NodeKind::Leaf, "One", "same", vec![]),
            node(NodeKind::Branch, "Two", "same", vec![]),
        ],
    };
    assert!(!schema.validate());
    assert_eq!(schema.decode("same").unwrap(), PermissionPath::Leaf { node: 0 });
}

#[test]
fn validate_rejects_unusable_schemas() {
    let with = |nodes: Vec<SchemaNode>| Schema { name: "S".to_string(), nodes };
    assert!(with(vec![]).validate());
    assert!(!with(vec![node(NodeKind::Leaf, "A", "", vec![])]).validate());
    assert!(!with(vec![node(NodeKind::Leaf, "A", "*", vec![])]).validate());
    assert!(!with(vec![node(NodeKind::Leaf, "A", "a.b", vec![])]).validate());
    assert!(!with(vec![node(NodeKind::Leaf, "A", "a", vec![node(NodeKind::Leaf, "B", "b", vec![])])])
        .validate());
    assert!(with(vec![node(NodeKind::Branch, "A", "a", vec![node(NodeKind::Leaf, "B", "b", vec![])])])
        .validate());
    assert!(!with(vec![node(NodeKind::Branch, "A", "a", vec![node(NodeKind::Leaf, "B", "*", vec![])])])
        .validate());
    let mut unlabelled = node(NodeKind::StringLeaf, "A", "a", vec![]);
    unlabelled.parameter = None;
    assert!(!with(vec![unlabelled]).validate());
    let mut labelled = node(NodeKind::Leaf, "A", "a", vec![]);
    labelled.parameter = Some("p".to_string());
    assert!(!with(vec![labelled]).validate());
}

#[test]
fn the_declared_tree_is_the_one_of_the_service() {
    let tree = permissions_tree();
    assert_eq!(tree.name, "Permissions");
    assert_eq!(tree.nodes.len(), 1);
    assert_eq!(tree.nodes[0].name(), "Authentication");
    assert_eq!(tree.nodes[0].kind(), NodeKind::Branch);
}
