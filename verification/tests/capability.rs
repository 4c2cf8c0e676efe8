use abyssal::types::permission::PermissionCapability;

fn levels() -> Vec<PermissionCapability> {
    vec![PermissionCapability::Read, PermissionCapability::Edit, PermissionCapability::Manage]
}

#[test]
fn read_satisfies_only_read() {
    assert!(PermissionCapability::Read.has_at_least(PermissionCapability::Read));
    assert!(!PermissionCapability::Read.has_at_least(PermissionCapability::Edit));
    assert!(!PermissionCapability::Read.has_at_least(PermissionCapability::Manage));
}

#[test]
fn edit_satisfies_read_and_edit() {
    assert!(PermissionCapability::Edit.has_at_least(PermissionCapability::Read));
    assert!(PermissionCapability::Edit.has_at_least(PermissionCapability::Edit));
    assert!(!PermissionCapability::Edit.has_at_least(PermissionCapability::Manage));
}

#[test]
fn manage_satisfies_all() {
    assert!(PermissionCapability::Manage.has_at_least(PermissionCapability::Read));
    assert!(PermissionCapability::Manage.has_at_least(PermissionCapability::Edit));
    assert!(PermissionCapability::Manage.has_at_least(PermissionCapability::Manage));
}

#[test]
fn capability_order_is_monotone() {
    let all = levels();
    for (i, a) in all.iter().enumerate() {
        for (j, b) in all.iter().enumerate() {
            if i <= j {
                assert!(b.has_at_least(*a));
                assert_eq!(a.has_at_least(*b), a == b);
            }
        }
    }
}

#[test]
fn capability_order_is_total_and_acyclic() {
    let all = levels();
    for a in all.iter() {
        assert!(a.has_at_least(*a));
        for b in all.iter() {
            assert!(a.has_at_least(*b) || b.has_at_least(*a));
            if a.has_at_least(*b) && b.has_at_least(*a) {
                assert_eq!(a, b);
            }
        }
    }
}
