use abyssal::error::Error;
use abyssal::models::auth::LocalUser as Account;
use abyssal::models::user::{ApplicationUser, LocalUser, OidcUser, OwnerUser, User, UserKind, UserMethods};
use abyssal::models::Model;
use abyssal::types::str_uuid::Uuid;

fn owner_id() -> Uuid {
    Uuid::from_str("9f0c8a3e-5b7d-4c1a-8e2f-0a1b2c3d4e5f").unwrap()
}

fn invalid_kinds(result: Result<bool, Error>) -> String {
    match result {
        Err(Error::InvalidUserType(kinds)) => kinds,
        other => panic!("expected an invalid user type, got {:?}", other),
    }
}

#[test]
fn user_kind_names() {
    assert_eq!(UserKind::Local.to_string(), "local");
    assert_eq!(UserKind::Owner.to_string(), "owner");
    assert_eq!(UserKind::Oidc.to_string(), "oidc");
    assert_eq!(UserKind::Application.to_string(), "application");
}

#[test]
fn hashing_with_a_salt_is_repeatable() {
    let salt = vec![7u8; 16];
    let first = User::hash_with_salt("correct horse", &salt).unwrap();
    let second = User::hash_with_salt("correct horse", &salt).unwrap();
    assert_eq!(first, second);
    assert_ne!(first, "correct horse");
    assert!(first.starts_with("$argon2id$v=19$m=19456,t=2,p=1$"));
    assert_eq!(User::verify_value("correct horse", &first).unwrap(), true);
    assert_eq!(User::verify_value("battery staple", &first).unwrap(), false);
}

#[test]
fn hashing_under_another_salt_differs() {
    let first = User::hash_with_salt("secret", &vec![1u8; 16]).unwrap();
    let second = User::hash_with_salt("secret", &vec![2u8; 16]).unwrap();
    assert_ne!(first, second);
}

#[test]
fn a_salt_that_argon2_refuses_is_a_hashing_failure() {
    for short in [0usize, 1, 2, 3, 7] {
        assert!(matches!(
            User::hash_with_salt("secret", &vec![1u8; short]),
            Err(Error::PasswordGeneration(_))
        ));
    }
    assert!(User::hash_with_salt("secret", &vec![1u8; 8]).is_ok());
    assert!(User::hash_with_salt("secret", &vec![1u8; 48]).is_ok());
    assert!(matches!(
        User::hash_with_salt("secret", &vec![1u8; 49]),
        Err(Error::PasswordGeneration(_))
    ));
    assert!(matches!(
        User::hash_with_salt("secret", &vec![1u8; 100]),
        Err(Error::PasswordGeneration(_))
    ));
}

#[test]
fn fresh_salts_give_different_hashes() {
    let first = User::hash_value("secret").unwrap();
    let second = User::hash_value("secret").unwrap();
    assert_ne!(first, second);
    assert_eq!(User::verify_value("secret", &first).unwrap(), true);
}

#[test]
fn a_malformed_hash_is_a_hashing_failure() {
    assert!(matches!(User::verify_value("secret", "not a hash"), Err(Error::PasswordGeneration(_))));
    assert!(matches!(User::verify_value("secret", ""), Err(Error::PasswordGeneration(_))));
}

#[test]
fn create_local_and_check_the_password() {
    let user = User::create_local("alice", "wonderland").unwrap();
    assert_eq!(user.kind(), UserKind::Local);
    assert_eq!(user.name(), "alice");
    assert!(user.groups().is_empty());
    assert_eq!(Uuid::from_str(&user.id().to_string()).unwrap(), user.id());
    assert_eq!(user.model_id(), user.id());
    match &user {
        User::Local(local) => assert_ne!(local.password(), "wonderland"),
        other => panic!("expected a local user, got {:?}", other),
    }
    assert_eq!(user.verify_password("wonderland").unwrap(), true);
    assert_eq!(user.verify_password("looking glass").unwrap(), false);
    assert_eq!(invalid_kinds(user.verify_client_secret("wonderland")), "application");
}

#[test]
fn create_owner_and_check_the_password() {
    let user = User::create_owner("root", "toor").unwrap();
    assert_eq!(user.kind(), UserKind::Owner);
    assert_eq!(user.name(), "root");
    assert_eq!(user.verify_password("toor").unwrap(), true);
    assert_eq!(user.verify_password("root").unwrap(), false);
}

#[test]
fn create_application_hands_out_the_secret_once() {
    let (user, secret) = User::create_application("backup", owner_id()).unwrap();
    assert_eq!(user.kind(), UserKind::Application);
    assert_eq!(user.name(), "backup");
    match &user {
        User::Application(application) => {
            assert_eq!(application.owner(), owner_id());
            assert_eq!(application.client_id().len(), 43);
            assert_eq!(secret.len(), 86);
            assert_ne!(application.client_secret(), secret);
            let url_safe = |c: char| c.is_ascii_alphanumeric() || c == '-' || c == '_';
            assert!(application.client_id().chars().all(url_safe));
            assert!(secret.chars().all(url_safe));
        }
        other => panic!("expected an application, got {:?}", other),
    }
    assert_eq!(user.verify_client_secret(&secret).unwrap(), true);
    assert_eq!(user.verify_client_secret("wrongsecret").unwrap(), false);
}

#[test]
fn wrong_variant_password_check() {
    let application = User::Application(ApplicationUser::new(
        "backup".to_string(),
        owner_id(),
        "client".to_string(),
        "hash".to_string(),
    ));
    assert_eq!(invalid_kinds(application.verify_password("secret")), "local, owner");
    let oidc = User::Oidc(OidcUser::new("carol".to_string()));
    assert_eq!(invalid_kinds(oidc.verify_password("secret")), "local, owner");
    assert_eq!(invalid_kinds(oidc.verify_client_secret("secret")), "application");
    match oidc.with_password("secret") {
        Err(Error::InvalidUserType(kinds)) => assert_eq!(kinds, "local, owner"),
        other => panic!("expected an invalid user type, got {:?}", other),
    }
}

#[test]
fn with_password_replaces_the_hash() {
    let salt_hash = User::hash_with_salt("old", &vec![3u8; 16]).unwrap();
    let user = User::Local(
        LocalUser::new("alice".to_string(), salt_hash.clone()).with_groups(vec!["staff".to_string()]),
    );
    let id = user.id();
    let changed = user.with_password("new").unwrap();
    assert_eq!(changed.kind(), UserKind::Local);
    assert_eq!(changed.id(), id);
    assert_eq!(changed.name(), "alice");
    assert_eq!(changed.groups(), vec!["staff".to_string()]);
    assert_eq!(changed.verify_password("new").unwrap(), true);
    assert_eq!(changed.verify_password("old").unwrap(), false);
}

#[test]
fn groups_are_added_at_the_end_and_removed_everywhere() {
    let user = User::Owner(OwnerUser::new("root".to_string(), "hash".to_string()));
    let user = user.with_group("staff").with_group("admins").with_group("staff");
    assert_eq!(user.groups(), vec!["staff".to_string(), "admins".to_string(), "staff".to_string()]);
    let user = user.without_group("staff");
    assert_eq!(user.groups(), vec!["admins".to_string()]);
    let user = user.without_group("nobody");
    assert_eq!(user.groups(), vec!["admins".to_string()]);
    assert_eq!(user.kind(), UserKind::Owner);
    assert_eq!(user.name(), "root");
}

#[test]
fn builders_replace_one_field() {
    let id = owner_id();
    let user = User::Oidc(OidcUser::new("carol".to_string()))
        .with_id(id.clone())
        .with_name("caroline".to_string())
        .with_groups(vec!["a".to_string(), "b".to_string()]);
    assert_eq!(user.id(), id);
    assert_eq!(user.name(), "caroline");
    assert_eq!(user.groups(), vec!["a".to_string(), "b".to_string()]);
    assert_eq!(user.kind(), UserKind::Oidc);
    let oidc = OidcUser::from_parts(id.clone(), "c".to_string(), vec![], vec!["x".to_string()]);
    assert_eq!(oidc.oidc_groups(), vec!["x".to_string()]);
    assert_eq!(oidc.with_oidc_groups(vec![]).oidc_groups(), Vec::<String>::new());
    let application = ApplicationUser::from_parts(
        id.clone(),
        "app".to_string(),
        vec![],
        id.clone(),
        "client".to_string(),
        "hash".to_string(),
    )
    .with_client_id("other".to_string());
    assert_eq!(application.client_id(), "other");
    assert_eq!(application.client_secret(), "hash");
    assert_eq!(application.owner(), id);
}

#[test]
fn collections_and_identifier_field() {
    assert_eq!(User::collection(), "auth.users");
    assert_eq!(User::model_id_field(), "id");
    assert_eq!(Account::collection(), "auth.users.local");
}

#[test]
fn account_verify_tells_a_wrong_password_from_a_broken_hash() {
    let account = Account::new("dave", "hunter2").unwrap();
    assert_eq!(account.username(), "dave");
    assert!(!account.default_admin());
    assert!(account.groups().is_empty());
    assert!(account.verify("hunter2").is_ok());
    assert!(matches!(account.verify("hunter3"), Err(Error::IncorrectCredentials)));
    let broken = Account::from_parts(
        account.id(),
        "dave".to_string(),
        "not a hash".to_string(),
        vec![],
        false,
    );
    assert!(matches!(broken.verify("hunter2"), Err(Error::PasswordGeneration(_))));
}

#[test]
fn account_set_password_needs_the_current_one() {
    let hashed = User::hash_with_salt("admin", &vec![9u8; 16]).unwrap();
    let mut account =
        Account::from_parts(owner_id(), "admin".to_string(), hashed, vec![], true);
    assert!(account.default_admin());
    assert!(matches!(
        account.set_password("guess", "mine"),
        Err(Error::IncorrectCredentials)
    ));
    assert!(account.verify("admin").is_ok());
    assert!(matches!(account.verify("mine"), Err(Error::IncorrectCredentials)));
}

#[test]
fn account_set_password_replaces_the_hash() {
    let hashed = User::hash_with_salt("admin", &vec![9u8; 16]).unwrap();
    let mut account =
        Account::from_parts(owner_id(), "admin".to_string(), hashed, vec![owner_id()], false);
    assert!(account.set_password("admin", "better").is_ok());
    assert!(account.verify("better").is_ok());
    assert!(matches!(account.verify("admin"), Err(Error::IncorrectCredentials)));
    assert_eq!(account.id(), owner_id());
    assert_eq!(account.username(), "admin");
    assert_eq!(account.groups(), vec![owner_id()]);
}

#[test]
fn account_setters() {
    let mut account = Account::new_default_admin("admin", "admin").unwrap();
    assert!(account.default_admin());
    account.set_username("root".to_string());
    account.set_groups(vec![owner_id()]);
    assert_eq!(account.username(), "root");
    assert_eq!(account.groups(), vec![owner_id()]);
    assert!(account.default_admin());
}

#[test]
fn login_decides_on_the_stored_hash() {
    let hashed = User::hash_with_salt("wonderland", &vec![5u8; 16]).unwrap();
    let alice = || User::Local(LocalUser::new("alice".to_string(), hashed.clone()));
    let id = alice().id();
    match abyssal::routes::login(Some(alice().with_id(id.clone())), "wonderland") {
        Ok((token, user)) => {
            assert_eq!(user.id(), id);
            assert_eq!(token.user(), id);
            assert_ne!(token.id(), id);
        }
        other => panic!("expected a token, got {:?}", other),
    }
    assert!(matches!(
        abyssal::routes::login(Some(alice()), "looking glass"),
        Err(Error::IncorrectCredentials)
    ));
    assert!(matches!(abyssal::routes::login(None, "wonderland"), Err(Error::IncorrectCredentials)));
    let oidc = User::Oidc(OidcUser::new("carol".to_string()));
    match abyssal::routes::login(Some(oidc), "wonderland") {
        Err(Error::InvalidUserType(kinds)) => assert_eq!(kinds, "local, owner"),
        other => panic!("expected an invalid user type, got {:?}", other),
    }
    let broken = User::Local(LocalUser::new("alice".to_string(), "not a hash".to_string()));
    assert!(matches!(
        abyssal::routes::login(Some(broken), "wonderland"),
        Err(Error::PasswordGeneration(_))
    ));
}

#[test]
fn the_administrator_is_made_once() {
    match abyssal::routes::ensure_admin(None, "admin", "admin") {
        Ok(Some(created)) => {
            assert_eq!(created.kind(), UserKind::Owner);
            assert_eq!(created.name(), "admin");
            assert_eq!(created.verify_password("admin").unwrap(), true);
        }
        other => panic!("expected a new owner, got {:?}", other),
    }
    let owner = User::Owner(OwnerUser::new("admin".to_string(), "hash".to_string()));
    assert!(matches!(abyssal::routes::ensure_admin(Some(owner), "admin", "admin"), Ok(None)));
    let local = User::Local(LocalUser::new("admin".to_string(), "hash".to_string()));
    match abyssal::routes::ensure_admin(Some(local), "admin", "admin") {
        Err(Error::InvalidUserType(kinds)) => assert_eq!(kinds, "owner"),
        other => panic!("expected an invalid user type, got {:?}", other),
    }
}
