use abyssal::schema::codec::PermissionPath;
use abyssal::schema::depends::DependencyEdge;
use abyssal::schema::node::{impl_permissions, Node, Tree};
use abyssal::types::config::{
    Config, DatabaseBackend, FileTypeLimit, LimitsConfig, ServerConfig, DEFAULT_FILE_LIMIT,
};

fn limits() -> LimitsConfig {
    LimitsConfig::from_parts(
        1000,
        vec![
            FileTypeLimit::from_parts("png".to_string(), 50),
            FileTypeLimit::from_parts("tar.gz".to_string(), 700),
            FileTypeLimit::from_parts("png".to_string(), 60),
            FileTypeLimit::from_parts("".to_string(), 5),
        ],
    )
}

#[test]
fn extension_limit_of_a_type_with_its_own_limit() {
    assert_eq!(limits().extension_limit("png"), 50);
    assert_eq!(limits().extension_limit(".png"), 50);
    assert_eq!(limits().extension_limit("...png"), 50);
    assert_eq!(limits().extension_limit("tar.gz"), 700);
    assert_eq!(limits().extension_limit(".tar.gz"), 700);
}

#[test]
fn extension_limit_falls_back_to_the_limit_for_all_files() {
    assert_eq!(limits().extension_limit("jpg"), 1000);
    assert_eq!(limits().extension_limit("PNG"), 1000);
    assert_eq!(limits().extension_limit("png."), 1000);
    assert_eq!(limits().extension_limit("gz"), 1000);
    assert_eq!(LimitsConfig::default().extension_limit("png"), DEFAULT_FILE_LIMIT);
}

#[test]
fn extension_limit_of_nothing_but_dots() {
    assert_eq!(limits().extension_limit(""), 5);
    assert_eq!(limits().extension_limit("."), 5);
    assert_eq!(limits().extension_limit("...."), 5);
    assert_eq!(LimitsConfig::default().extension_limit(""), DEFAULT_FILE_LIMIT);
}

#[test]
fn defaults_of_the_whole_configuration() {
    assert_eq!(DEFAULT_FILE_LIMIT, 10 * 1024 * 1024 * 1024);
    assert_eq!(LimitsConfig::_d_files(), DEFAULT_FILE_LIMIT);
    let server = ServerConfig::default();
    assert_eq!(server.address(), "0.0.0.0");
    assert_eq!(server.port(), 8080);
    assert_eq!(server.secret_key(), None);
    assert!(server.tls().is_none());
    assert_eq!(server.limits().files(), DEFAULT_FILE_LIMIT);
    assert!(server.limits().file_types().is_empty());
    let config = Config::default();
    assert_eq!(config.server().port(), 8080);
    assert_eq!(config.authentication().admin_user(), "admin");
    assert_eq!(config.database().backend(), DatabaseBackend::Sqlite);
    assert_eq!(config.database().url(), "sqlite://abyssal.db");
}

fn edge(from: &str, to: &str) -> DependencyEdge {
    DependencyEdge { from: from.to_string(), to: to.to_string() }
}

#[test]
fn dependency_edges_in_declaration_order() {
    let leaf = |name: &str, depends_on: Vec<&str>| Node::Leaf {
        name: name.to_string(),
        comment: None,
        depends_on: depends_on.into_iter().map(|d| d.to_string()).collect(),
    };
    let tree = Tree {
        name: "Files".to_string(),
        nodes: vec![
            Node::Branch {
                name: "Shares".to_string(),
                nodes: vec![
                    leaf("View", vec![]),
                    leaf("EditAll", vec!["shares.view", "users.view"]),
                ],
                comment: None,
                depends_on: vec!["users.*".to_string()],
            },
            leaf("Users", vec![]),
            Node::ParamBranch {
                name: "Folder".to_string(),
                nodes: vec![leaf("Read", vec!["shares.view"])],
                parameter: "path".to_string(),
                comment: None,
                depends_on: vec![],
            },
        ],
    };
    let schema = impl_permissions(&tree).unwrap();
    assert_eq!(
        schema.dependency_edges(),
        vec![
            edge("shares", "users.*"),
            edge("shares.edit_all", "shares.view"),
            edge("shares.edit_all", "users.view"),
            edge("folder.read", "shares.view"),
        ]
    );
    assert_eq!(schema.nodes[0].nodes[1].depends_on, vec!["shares.view", "users.view"]);
}

#[test]
fn a_schema_without_dependencies_has_no_edges() {
    let schema = abyssal::models::permission::permissions().unwrap();
    assert!(schema.dependency_edges().is_empty());
    assert!(schema.clone().validate());
}

#[test]
fn try_encode_refuses_paths_of_another_shape() {
    let schema = abyssal::models::permission::permissions().unwrap();
    assert_eq!(schema.try_encode(&PermissionPath::All).as_deref(), Some("*"));
    assert_eq!(
        schema
            .try_encode(&PermissionPath::Branch { node: 0, child: Box::new(PermissionPath::All) })
            .as_deref(),
        Some("authentication.*")
    );
    assert_eq!(schema.try_encode(&PermissionPath::Leaf { node: 0 }), None);
    assert_eq!(schema.try_encode(&PermissionPath::Leaf { node: 9 }), None);
    let path = PermissionPath::Branch { node: 0, child: Box::new(PermissionPath::All) };
    assert_eq!(path.clone(), path);
}
