use neplus::access_control::{
    require_admin, require_creator, require_role, AccessControl, AccessControlError, Role,
};
use neplus::Pubkey;

fn key(id: u64) -> Pubkey {
    Pubkey { id }
}

#[test]
fn new_seeds_admin_grant() {
    let ac = AccessControl::new(key(1));
    assert_eq!(ac.admin, key(1));
    assert_eq!(ac.roles, vec![(key(1), Role::Admin)]);
}

#[test]
fn has_role_exact_grant_only() {
    let mut ac = AccessControl::new(key(1));
    ac.add_role(key(2), Role::Creator);
    assert!(ac.has_role(&key(2), &Role::Creator));
    assert!(!ac.has_role(&key(2), &Role::Investor));
    assert!(!ac.has_role(&key(3), &Role::Creator));
}

#[test]
fn admin_shortcut_with_empty_grants() {
    let ac = AccessControl { admin: key(1), roles: vec![] };
    assert!(ac.has_role(&key(1), &Role::Admin));
    assert!(ac.has_role(&key(1), &Role::Creator));
    assert!(ac.has_role(&key(1), &Role::Collaborator));
    assert!(ac.has_role(&key(1), &Role::Investor));
    assert!(ac.has_role(&key(1), &Role::User));
    assert!(ac.is_admin(&key(1)));
}

#[test]
fn add_role_twice_is_idempotent() {
    let mut once = AccessControl::new(key(1));
    once.add_role(key(2), Role::Investor);
    let mut twice = AccessControl::new(key(1));
    twice.add_role(key(2), Role::Investor);
    twice.add_role(key(2), Role::Investor);
    assert_eq!(once.roles, twice.roles);
}

#[test]
fn add_then_remove_restores_prior_grants() {
    let mut ac = AccessControl::new(key(1));
    ac.add_role(key(2), Role::Creator);
    let before = ac.roles.clone();
    ac.add_role(key(3), Role::User);
    ac.remove_role(&key(3), &Role::User);
    assert_eq!(ac.roles, before);
}

#[test]
fn grant_to_admin_is_suppressed() {
    let mut ac = AccessControl::new(key(1));
    let before = ac.roles.clone();
    ac.add_role(key(1), Role::Investor);
    ac.add_role(key(1), Role::Admin);
    assert_eq!(ac.roles, before);
}

#[test]
fn remove_role_drops_all_matching_grants() {
    let mut ac = AccessControl {
        admin: key(1),
        roles: vec![
            (key(2), Role::User),
            (key(2), Role::Creator),
            (key(2), Role::User),
            (key(3), Role::User),
        ],
    };
    ac.remove_role(&key(2), &Role::User);
    assert_eq!(ac.roles, vec![(key(2), Role::Creator), (key(3), Role::User)]);
}

#[test]
fn remove_role_from_admin_keeps_shortcut() {
    let mut ac = AccessControl::new(key(1));
    ac.remove_role(&key(1), &Role::Admin);
    assert_eq!(ac.roles, vec![]);
    assert!(ac.is_admin(&key(1)));
    assert!(ac.has_role(&key(1), &Role::Admin));
}

#[test]
fn is_admin_by_explicit_grant() {
    let mut ac = AccessControl::new(key(1));
    assert!(!ac.is_admin(&key(2)));
    ac.add_role(key(2), Role::Admin);
    assert!(ac.is_admin(&key(2)));
}

#[test]
fn require_admin_passes_and_refuses() {
    let ac = AccessControl::new(key(1));
    assert_eq!(require_admin(&ac, &key(1)), Ok(()));
    assert_eq!(require_admin(&ac, &key(2)), Err(AccessControlError::UnauthorizedAdmin));
}

#[test]
fn require_creator_passes_and_refuses() {
    let mut ac = AccessControl::new(key(1));
    ac.add_role(key(2), Role::Creator);
    assert_eq!(require_creator(&ac, &key(2)), Ok(()));
    assert_eq!(require_creator(&ac, &key(3)), Err(AccessControlError::UnauthorizedCreator));
}

#[test]
fn require_role_passes_and_refuses() {
    let mut ac = AccessControl::new(key(1));
    ac.add_role(key(2), Role::Collaborator);
    assert_eq!(require_role(&ac, &key(2), &Role::Collaborator), Ok(()));
    assert_eq!(
        require_role(&ac, &key(2), &Role::Investor),
        Err(AccessControlError::UnauthorizedRole)
    );
}
