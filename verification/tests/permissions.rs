use std::sync::Arc;

use devices_backend::middlewares::authentication_layer::validate_permissions;
use devices_backend::models::login::Claims;
use devices_backend::models::permission::Permission;

fn claims(roles: &[&str], permissions: &[&str]) -> Claims {
    Claims {
        sub: uuid::Uuid::new_v4().to_string(),
        exp: 0,
        roles: roles.iter().map(|r| r.to_string()).collect(),
        permissions: permissions.iter().map(|p| p.to_string()).collect(),
    }
}

#[test]
fn validate_permissions_works() {
    let test_cases = vec![
        (
            Claims {
                sub: uuid::Uuid::new_v4().to_string(),
                exp: 0,
                roles: vec!["registered_user".to_string()],
                permissions: vec![],
            },
            Permission::Role("registered_user".to_string()),
            true,
        ),
        (
            Claims {
                sub: uuid::Uuid::new_v4().to_string(),
                exp: 0,
                roles: vec!["registered_user".to_string()],
                permissions: vec![],
            },
            Permission::Role("admin".to_string()),
            false,
        ),
        (
            Claims {
                sub: uuid::Uuid::new_v4().to_string(),
                exp: 0,
                roles: vec!["registered_user".to_string()],
                permissions: vec![],
            },
            Permission::Empty,
            true,
        ),
        (
            Claims {
                sub: uuid::Uuid::new_v4().to_string(),
                exp: 0,
                roles: vec![],
                permissions: vec!["read:devices".to_string(), "create:device".to_string()],
            },
            Permission::IndividualPermission(vec!["read:devices".to_string()]),
            true,
        ),
        (
            Claims {
                sub: uuid::Uuid::new_v4().to_string(),
                exp: 0,
                roles: vec![],
                permissions: vec!["read:devices".to_string(), "create:device".to_string()],
            },
            Permission::IndividualPermission(vec!["delete:devices".to_string()]),
            false,
        ),
    ];

    for (claims, require_permission, expected) in test_cases {
        assert_eq!(
            validate_permissions(&claims, Arc::new(require_permission)),
            expected
        );
    }
}

#[test]
fn role_is_looked_up_among_roles_only() {
    let c = claims(&["registered_user"], &[]);
    assert!(validate_permissions(&c, Arc::new(Permission::Role("registered_user".to_string()))));
    let c = claims(&["other"], &[]);
    assert!(!validate_permissions(&c, Arc::new(Permission::Role("registered_user".to_string()))));
    let c = claims(&[], &["registered_user"]);
    assert!(!validate_permissions(&c, Arc::new(Permission::Role("registered_user".to_string()))));
}

#[test]
fn empty_requirement_is_always_met() {
    assert!(validate_permissions(&claims(&[], &[]), Arc::new(Permission::Empty)));
    assert!(validate_permissions(&claims(&["admin"], &["x"]), Arc::new(Permission::Empty)));
}

#[test]
fn individual_permissions_are_all_required() {
    let both = Permission::IndividualPermission(vec![
        "read:devices".to_string(),
        "create:device".to_string(),
    ]);
    assert!(!validate_permissions(&claims(&[], &["read:devices"]), Arc::new(both)));
    let both = Permission::IndividualPermission(vec![
        "read:devices".to_string(),
        "create:device".to_string(),
    ]);
    assert!(validate_permissions(
        &claims(&[], &["create:device", "read:devices"]),
        Arc::new(both)
    ));
    let one = Permission::IndividualPermission(vec!["read:devices".to_string()]);
    assert!(validate_permissions(&claims(&[], &["read:devices"]), Arc::new(one)));
    let one = Permission::IndividualPermission(vec!["read:devices".to_string()]);
    assert!(!validate_permissions(&claims(&["read:devices"], &[]), Arc::new(one)));
}

#[test]
fn no_individual_permission_is_no_restriction() {
    let none = Permission::IndividualPermission(vec![]);
    assert!(validate_permissions(&claims(&[], &[]), Arc::new(none)));
}

#[test]
fn permissions_match_whole_names_only() {
    let one = Permission::IndividualPermission(vec!["read:devices".to_string()]);
    assert!(!validate_permissions(&claims(&[], &["read:device"]), Arc::new(one)));
    let one = Permission::IndividualPermission(vec!["read:*".to_string()]);
    assert!(!validate_permissions(&claims(&[], &["read:devices"]), Arc::new(one)));
}
