use abyssal::cli::AbyssalCli;
use abyssal::error::{join, Error};
use abyssal::models::auth::Session;
use abyssal::models::permission::{PermissionModel, PermissionTarget};
use abyssal::models::root_directory::RootDirectory;
use abyssal::models::token::Token;
use abyssal::models::Model;
use abyssal::types::config::{AuthConfig, DatabaseBackend, DatabaseConfig, TlsConfig};
use abyssal::types::str_uuid::Uuid;
use abyssal::types::timestamp::Timestamp;

fn id() -> Uuid {
    Uuid::from_str("7c9e6679-7425-40de-944b-e07fc1f90ae7").unwrap()
}

fn at(secs: i64, nanos: u32) -> Timestamp {
    Timestamp { secs, nanos }
}

#[test]
fn timestamps_are_ordered_by_seconds_then_nanoseconds() {
    assert!(at(1, 0).is_before(&at(2, 0)));
    assert!(at(1, 5).is_before(&at(1, 6)));
    assert!(at(-1, 999).is_before(&at(0, 0)));
    assert!(!at(1, 5).is_before(&at(1, 5)));
    assert!(!at(2, 0).is_before(&at(1, 999_999_999)));
}

#[test]
fn token_parts() {
    let token = Token::issued_at(id(), at(5, 7));
    assert_eq!(token.user(), id());
    assert_eq!(token.created(), at(5, 7));
    assert_eq!(token.refreshed(), at(5, 7));
    assert_ne!(token.id(), id());
    assert_eq!(Uuid::from_str(&token.id().to_string()).unwrap(), token.id());
    assert_eq!(token.model_id(), token.id());
    assert_eq!(Token::collection(), "auth.tokens");
    let later = token.clone().refreshed_at(at(9, 0));
    assert_eq!(later.id(), token.id());
    assert_eq!(later.user(), id());
    assert_eq!(later.created(), at(5, 7));
    assert_eq!(later.refreshed(), at(9, 0));
}

#[test]
fn tokens_made_now_are_refreshed_later() {
    let token = Token::new(id());
    assert_eq!(token.user(), id());
    assert!(at(1_600_000_000, 0).is_before(&token.created()));
    assert!(!token.refreshed().is_before(&token.created()));
    let created = token.created();
    let before = token.refreshed();
    let token_id = token.id();
    let refreshed = token.refresh_token();
    assert_eq!(refreshed.id(), token_id);
    assert_eq!(refreshed.created(), created);
    assert!(!refreshed.refreshed().is_before(&before));
}

#[test]
fn session_parts() {
    let mut session = Session::from_parts(id(), None, at(1, 0), at(2, 0));
    assert_eq!(session.id(), id());
    assert_eq!(session.user(), None);
    assert_eq!(session.created(), at(1, 0));
    assert_eq!(session.accessed(), at(2, 0));
    session.set_user(Some(id()));
    session.set_accessed(at(3, 0));
    assert_eq!(session.user(), Some(id()));
    assert_eq!(session.accessed(), at(3, 0));
    assert_eq!(session.created(), at(1, 0));
    assert_eq!(Session::collection(), "auth.session");
}

#[test]
fn root_directory_parts() {
    let root = RootDirectory::new("media", Some("Media"), "/srv/media");
    assert_eq!(root.name(), "media");
    assert_eq!(root.display_name().as_deref(), Some("Media"));
    assert_eq!(root.path(), "/srv/media");
    assert_eq!(root.model_id(), root.id());
    assert_eq!(RootDirectory::collection(), "resources.roots");
    let plain = RootDirectory::new("tmp", None, "/tmp").with_id(id()).with_path("/var/tmp".to_string());
    assert_eq!(plain.display_name(), None);
    assert_eq!(plain.id(), id());
    assert_eq!(plain.path(), "/var/tmp");
}

#[test]
fn reconcile_a_configured_directory() {
    let stored = || RootDirectory::new("media", Some("Media"), "/srv/media").with_id(id());
    assert!(RootDirectory::reconcile(Some(stored()), "media", Some("Media"), "/srv/media").is_none());
    let moved = RootDirectory::reconcile(Some(stored()), "media", Some("Media"), "/mnt/media").unwrap();
    assert_eq!(moved.id(), id());
    assert_eq!(moved.path(), "/mnt/media");
    assert_eq!(moved.display_name().as_deref(), Some("Media"));
    let renamed = RootDirectory::reconcile(Some(stored()), "media", None, "/srv/media").unwrap();
    assert_eq!(renamed.id(), id());
    assert_eq!(renamed.display_name(), None);
    let fresh = RootDirectory::reconcile(None, "media", Some("Media"), "/srv/media").unwrap();
    assert_ne!(fresh.id(), id());
    assert_eq!(fresh.name(), "media");
    assert_eq!(fresh.path(), "/srv/media");
}

#[test]
fn permission_model_parts() {
    let model = PermissionModel::from_parts(id(), PermissionTarget::Group, id());
    assert_eq!(model.target_type(), PermissionTarget::Group);
    assert_eq!(model.with_target_type(PermissionTarget::User).target_type(), PermissionTarget::User);
}

#[test]
fn configuration_defaults() {
    let auth = AuthConfig::default();
    assert_eq!(auth.admin_user(), "admin");
    assert_eq!(auth.admin_password(), "admin");
    assert_eq!(AuthConfig::_d_admin_user(), "admin");
    assert_eq!(AuthConfig::_d_admin_password(), "admin");
    let database = DatabaseConfig::default();
    assert_eq!(database.backend(), DatabaseBackend::Sqlite);
    assert_eq!(database.url(), "sqlite://abyssal.db");
    let tls = TlsConfig::from_parts("key.pem".to_string(), "certs.pem".to_string());
    assert_eq!(tls.key(), "key.pem");
    assert_eq!(tls.certs(), "certs.pem");
    let cli = AbyssalCli { config_files: vec!["a.toml".to_string()], specification_path: None };
    assert_eq!(cli.config_files.len(), 1);
}

#[test]
fn join_puts_the_separator_between_neighbours() {
    let parts = |items: &[&str]| items.iter().map(|s| s.to_string()).collect::<Vec<String>>();
    assert_eq!(join(&parts(&[]), ", "), "");
    assert_eq!(join(&parts(&["a"]), ", "), "a");
    assert_eq!(join(&parts(&["a", "b", "c"]), ", "), "a, b, c");
    assert_eq!(join(&parts(&["", ""]), "-"), "-");
}

#[test]
fn failures_and_what_a_transport_shows() {
    let kinds = Error::invalid_user_type(&vec!["local".to_string(), "owner".to_string()]);
    match &kinds {
        Error::InvalidUserType(text) => assert_eq!(text, "local, owner"),
        other => panic!("expected an invalid user type, got {:?}", other),
    }
    let meta = kinds.metadata();
    assert_eq!(meta.status, 500);
    assert_eq!(meta.code, "auth.invalid_user_type");
    assert_eq!(meta.message, "Invalid user type: should be one of [local, owner]");
    assert_eq!(meta.description, "");

    let credentials = Error::IncorrectCredentials.metadata();
    assert_eq!(credentials.status, 403);
    assert_eq!(credentials.code, "auth.credentials");
    assert_eq!(credentials.message, "Invalid credentials (incorrect username/password)");

    let missing = Error::MissingAuthorization;
    assert_eq!(missing.status(), 401);
    assert_eq!(missing.code(), "auth.missing_authorization");

    let unknown = Error::unknown_permission("bogus");
    assert_eq!(unknown.status(), 400);
    assert_eq!(unknown.message(), "Unknown permission: bogus");

    let state = Error::MissingState("abyssal::Config".to_string());
    assert_eq!(state.status(), 500);
    assert_eq!(state.code(), "server.missing_state");
    assert_eq!(state.message(), "Missing application state (critical): <abyssal::Config>");

    assert_eq!(Error::Unknown("x".to_string()).code(), "server.unknown");
    assert_eq!(Error::Unknown("x".to_string()).message(), "An unknown error occurred: x");
    assert_eq!(Error::Configuration("x".to_string()).code(), "server.configuration");
    assert_eq!(Error::Database("x".to_string()).message(), "Database error: x");
    assert_eq!(Error::PasswordGeneration("Crypto".to_string()).code(), "server.password_generation");
    assert_eq!(
        Error::PasswordGeneration("Crypto".to_string()).message(),
        "Password generation error: Crypto"
    );
    assert_eq!(Error::InvalidUuid("x".to_string()).status(), 400);
    assert_eq!(Error::DuplicateSegment("x".to_string()).clone().status(), 500);
}
