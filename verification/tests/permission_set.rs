use abyssal::types::permission::{
    Permission, PermissionCapability, PermissionKind, PermissionSet, RootTopLevel,
};
use abyssal::types::str_uuid::Uuid;

fn root_a() -> Uuid {
    Uuid("11111111-1111-4111-8111-111111111111".to_string())
}

fn root_b() -> Uuid {
    Uuid("22222222-2222-4222-8222-222222222222".to_string())
}

fn directory(root: Uuid, capability: PermissionCapability) -> Permission {
    Permission::RootDirectory { root, top_level: RootTopLevel::Root, capability }
}

fn invites(root: Uuid, capability: PermissionCapability, administrate: bool) -> Permission {
    Permission::Invites { root, capability, administrate }
}

fn uploads(root: Uuid, capability: PermissionCapability, administrate: bool) -> Permission {
    Permission::UploadTargets { root, capability, administrate }
}

#[test]
fn permission_accessors() {
    let admin = Permission::Administrator;
    assert_eq!(admin.kind(), PermissionKind::Administrator);
    assert_eq!(admin.capability(), PermissionCapability::Manage);
    assert_eq!(admin.root(), None);
    assert!(admin.administrate());

    let inv = invites(root_a(), PermissionCapability::Edit, true);
    assert_eq!(inv.kind(), PermissionKind::Invites);
    assert_eq!(inv.capability(), PermissionCapability::Edit);
    assert_eq!(inv.root(), Some(root_a()));
    assert!(inv.administrate());

    let up = uploads(root_b(), PermissionCapability::Read, false);
    assert_eq!(up.kind(), PermissionKind::UploadTargets);
    assert_eq!(up.capability(), PermissionCapability::Read);
    assert_eq!(up.root(), Some(root_b()));
    assert!(!up.administrate());

    let dir = Permission::RootDirectory {
        root: root_a(),
        top_level: RootTopLevel::Home { parent: "home".to_string() },
        capability: PermissionCapability::Manage,
    };
    assert_eq!(dir.kind(), PermissionKind::RootDirectory);
    assert_eq!(dir.capability(), PermissionCapability::Manage);
    assert_eq!(dir.root(), Some(root_a()));
    assert!(!dir.administrate());
}

#[test]
fn permission_equality_compares_every_field() {
    assert_eq!(Permission::Administrator, Permission::Administrator);
    assert_eq!(
        invites(root_a(), PermissionCapability::Read, false),
        invites(root_a(), PermissionCapability::Read, false)
    );
    assert_ne!(
        invites(root_a(), PermissionCapability::Read, false),
        invites(root_a(), PermissionCapability::Read, true)
    );
    assert_ne!(
        invites(root_a(), PermissionCapability::Read, false),
        invites(root_b(), PermissionCapability::Read, false)
    );
    assert_ne!(
        invites(root_a(), PermissionCapability::Read, false),
        uploads(root_a(), PermissionCapability::Read, false)
    );
    assert_ne!(
        Permission::RootDirectory {
            root: root_a(),
            top_level: RootTopLevel::Home { parent: "a".to_string() },
            capability: PermissionCapability::Read,
        },
        Permission::RootDirectory {
            root: root_a(),
            top_level: RootTopLevel::Directory { path: "a".to_string() },
            capability: PermissionCapability::Read,
        }
    );
}

#[test]
fn empty_set_allows_nothing() {
    let set = PermissionSet::new();
    assert!(!set.is_administrator());
    assert!(!set.has_permission(Permission::Administrator));
    assert!(!set.has_permission(directory(root_a(), PermissionCapability::Read)));
    assert_eq!(set.into(), Vec::<Permission>::new());
    assert_eq!(PermissionSet::default().into(), Vec::<Permission>::new());
}

#[test]
fn administrator_override() {
    let mut set = PermissionSet::new();
    set.set_permission(Permission::Administrator);
    assert!(set.is_administrator());
    assert!(set.has_permission(Permission::Administrator));
    assert!(set.has_permission(directory(root_a(), PermissionCapability::Manage)));
    assert!(set.has_permission(invites(root_b(), PermissionCapability::Manage, true)));
    assert!(set.has_permission(uploads(root_b(), PermissionCapability::Edit, false)));
    assert_eq!(set.into(), vec![Permission::Administrator]);
}

#[test]
fn administrator_clears_other_grants() {
    let mut set = PermissionSet::new();
    set.set_permission(invites(root_a(), PermissionCapability::Read, false));
    set.set_permission(directory(root_b(), PermissionCapability::Edit));
    set.set_permission(Permission::Administrator);
    assert_eq!(set.into(), vec![Permission::Administrator]);
}

#[test]
fn other_grants_keep_an_administrator_grant() {
    let mut set = PermissionSet::new();
    set.set_permission(Permission::Administrator);
    set.set_permission(invites(root_a(), PermissionCapability::Read, false));
    assert!(set.is_administrator());
    assert!(set.has_permission(directory(root_b(), PermissionCapability::Manage)));
    assert_eq!(
        set.into(),
        vec![Permission::Administrator, invites(root_a(), PermissionCapability::Read, false)]
    );
}

#[test]
fn scope_replacement() {
    let mut set = PermissionSet::new();
    set.set_permission(invites(root_a(), PermissionCapability::Read, false));
    set.set_permission(invites(root_a(), PermissionCapability::Manage, true));
    assert_eq!(set.into(), vec![invites(root_a(), PermissionCapability::Manage, true)]);
}

#[test]
fn scope_replacement_keeps_other_scopes_in_order() {
    let mut set = PermissionSet::new();
    set.set_permission(invites(root_a(), PermissionCapability::Read, false));
    set.set_permission(uploads(root_a(), PermissionCapability::Read, false));
    set.set_permission(invites(root_b(), PermissionCapability::Edit, false));
    set.set_permission(directory(root_a(), PermissionCapability::Edit));
    set.set_permission(invites(root_a(), PermissionCapability::Manage, false));
    assert_eq!(
        set.into(),
        vec![
            uploads(root_a(), PermissionCapability::Read, false),
            invites(root_b(), PermissionCapability::Edit, false),
            directory(root_a(), PermissionCapability::Edit),
            invites(root_a(), PermissionCapability::Manage, false),
        ]
    );
}

#[test]
fn root_directory_scope_ignores_the_top_level() {
    let mut set = PermissionSet::new();
    set.set_permission(Permission::RootDirectory {
        root: root_a(),
        top_level: RootTopLevel::Home { parent: "home".to_string() },
        capability: PermissionCapability::Read,
    });
    set.set_permission(directory(root_a(), PermissionCapability::Edit));
    assert_eq!(set.into(), vec![directory(root_a(), PermissionCapability::Edit)]);
}

#[test]
fn capability_gating() {
    let mut set = PermissionSet::new();
    set.set_permission(directory(root_a(), PermissionCapability::Edit));
    assert!(set.has_permission(directory(root_a(), PermissionCapability::Read)));
    assert!(set.has_permission(directory(root_a(), PermissionCapability::Edit)));
    assert!(!set.has_permission(directory(root_a(), PermissionCapability::Manage)));
    assert!(!set.has_permission(directory(root_b(), PermissionCapability::Read)));
    assert!(!set.has_permission(invites(root_a(), PermissionCapability::Read, false)));
    assert!(!set.has_permission(Permission::Administrator));
    assert!(!set.is_administrator());
}

#[test]
fn the_administrate_flag_has_to_match() {
    let mut set = PermissionSet::new();
    set.set_permission(invites(root_a(), PermissionCapability::Manage, false));
    assert!(set.has_permission(invites(root_a(), PermissionCapability::Read, false)));
    assert!(!set.has_permission(invites(root_a(), PermissionCapability::Read, true)));
    set.set_permission(invites(root_a(), PermissionCapability::Manage, true));
    assert!(!set.has_permission(invites(root_a(), PermissionCapability::Read, false)));
    assert!(set.has_permission(invites(root_a(), PermissionCapability::Read, true)));
}

#[test]
fn remove_takes_out_equal_grants_only() {
    let set_of = |grants: Vec<Permission>| PermissionSet::from(grants);
    let mut set = set_of(vec![
        invites(root_a(), PermissionCapability::Read, false),
        directory(root_a(), PermissionCapability::Edit),
        invites(root_a(), PermissionCapability::Read, false),
        invites(root_a(), PermissionCapability::Edit, false),
    ]);
    set.remove_permission(invites(root_a(), PermissionCapability::Read, false));
    assert_eq!(
        set.clone().into(),
        vec![
            directory(root_a(), PermissionCapability::Edit),
            invites(root_a(), PermissionCapability::Edit, false),
        ]
    );
    set.remove_permission(invites(root_b(), PermissionCapability::Edit, false));
    assert_eq!(
        set.into(),
        vec![
            directory(root_a(), PermissionCapability::Edit),
            invites(root_a(), PermissionCapability::Edit, false),
        ]
    );
}

#[test]
fn from_keeps_the_grants_as_they_are() {
    let grants = vec![
        directory(root_b(), PermissionCapability::Read),
        directory(root_b(), PermissionCapability::Manage),
        Permission::Administrator,
    ];
    let set = PermissionSet::from(grants.clone());
    assert!(set.is_administrator());
    assert_eq!(set.into(), grants);
}
