//! Further behaviour of the engine: idempotence of granting and revocation,
//! identifier allocation across failed creations, signaled notifications,
//! the delegated-granting scenario, and the trait surface.

use pallet_rbac::{
    AddRole, Authorize, Config, Error, Event, InterfaceError, Pallet, PreassignRole, RoleInfo,
};

fn new_test_ext() -> Pallet {
    Pallet::new(Config { name_max_length: 20, granters_list_max_length: 20 })
}

// An authorization challenge against the empty role list always fails, even
// for a principal that holds a role.
#[test]
fn test_authorize_empty_list() {
    let mut rbac = new_test_ext();
    let role = rbac.add_role("admin".as_bytes(), &[], true).unwrap();
    rbac.preassign_role(1, role).unwrap();
    assert!(!rbac.authorize(&1, &[]));
    assert!(!rbac.authorize(&2, &[]));
}

// A rejected creation consumes no identifier: the next successful creation
// returns the identifier the failed one would have received.
#[test]
fn test_failed_creation_consumes_no_id() {
    let mut rbac = new_test_ext();
    let first = rbac.add_role("one".as_bytes(), &[], false).unwrap();
    assert!(rbac
        .add_role("adminadminadminadminadmin".as_bytes(), &[], false)
        .is_err());
    let second = rbac.add_role("two".as_bytes(), &[], false).unwrap();
    assert_eq!(first, 1);
    assert_eq!(second, 2);
}

// A rejected creation leaves the role directory unchanged and signals
// nothing.
#[test]
fn test_directory_unchanged_on_failed_creation() {
    let mut rbac = new_test_ext();
    rbac.add_role("one".as_bytes(), &[], false).unwrap();
    let roles_before = rbac.directory.roles.len();
    let events_before = rbac.events.len();
    assert!(rbac
        .add_role("adminadminadminadminadmin".as_bytes(), &[], false)
        .is_err());
    assert_eq!(rbac.directory.roles.len(), roles_before);
    assert_eq!(rbac.events.len(), events_before);
}

// Granting an already-held role succeeds and leaves the ledger unchanged.
#[test]
fn test_grant_idempotent() {
    let mut rbac = new_test_ext();
    let admin = rbac.add_role("admin".as_bytes(), &[], true).unwrap();
    rbac.preassign_role(1, admin).unwrap();
    assert!(rbac.grant_role(1, 2, admin).is_ok());
    let held_before = rbac.ledger.held.clone();
    assert!(rbac.grant_role(1, 2, admin).is_ok());
    assert_eq!(rbac.ledger.held, held_before);
    assert!(rbac.authorize(&2, &[admin]));
}

// Revoking a role that is not held succeeds and leaves the ledger
// unchanged.
#[test]
fn test_revoke_idempotent() {
    let mut rbac = new_test_ext();
    let admin = rbac.add_role("admin".as_bytes(), &[], true).unwrap();
    rbac.preassign_role(1, admin).unwrap();
    let held_before = rbac.ledger.held.clone();
    assert!(rbac.revoke_role(1, 2, admin).is_ok());
    assert_eq!(rbac.ledger.held, held_before);
    assert!(!rbac.authorize(&2, &[admin]));
}

// The delegated-granting scenario: a self-granting bootstrap role, a second
// role grantable by holders of the first, a successful delegated grant, a
// rejected grant by a stranger, and a grant of a role that was never
// created.
#[test]
fn test_delegated_granting_scenario() {
    let mut rbac = new_test_ext();

    // Role A: empty granters, self-granting, so its granter set is {A}.
    let role_a = rbac.add_role("a".as_bytes(), &[], true).unwrap();
    assert_eq!(rbac.roles(role_a).unwrap().granters, vec![role_a]);

    // Account 1 is bootstrapped into A.
    rbac.preassign_role(1, role_a).unwrap();

    // Role B is grantable by holders of A.
    let role_b = rbac.add_role("b".as_bytes(), &[role_a], false).unwrap();

    // Account 1 holds A, so it may grant B.
    assert!(rbac.grant_role(1, 2, role_b).is_ok());
    assert!(rbac.authorize(&2, &[role_b]));

    // Account 3 holds nothing, so it may not; the attempt changes nothing.
    assert_eq!(rbac.grant_role(3, 2, role_b), Err(Error::NotAuthorized));
    assert!(rbac.assignments(&2, role_b));

    // A role id that was never created cannot be granted.
    assert_eq!(rbac.grant_role(1, 2, 99), Err(Error::RoleNotExist));
}

// A successful creation signals a RoleCreated notification carrying the
// stored metadata, the self-appended granter included.
#[test]
fn test_role_created_event() {
    let mut rbac = new_test_ext();
    let id = rbac.add_role("admin".as_bytes(), &[7], true).unwrap();
    assert_eq!(
        rbac.events.last(),
        Some(&Event::RoleCreated {
            id,
            info: RoleInfo {
                name: "admin".as_bytes().to_vec(),
                granters: vec![7, id],
            },
        })
    );
}

// The identifier issued for the new role counts toward its own granter
// list's limit when self-granting is requested.
#[test]
fn test_self_grant_counts_toward_limit() {
    let mut rbac = new_test_ext();
    let granters: Vec<u64> = (1..=20).collect();
    assert_eq!(
        rbac.add_role("admin".as_bytes(), &granters, true),
        Err(InterfaceError::GrantersListTooLong {
            expected: 20,
            observed: 21
        })
    );
}

// Preassigning a role that does not exist fails.
#[test]
fn test_preassign_role_not_exists() {
    let mut rbac = new_test_ext();
    assert_eq!(
        rbac.preassign_role(1, 1),
        Err(InterfaceError::RoleNotExist)
    );
}

// Revocation is gated exactly as granting is.
#[test]
fn test_revoke_errors() {
    let mut rbac = new_test_ext();
    assert_eq!(rbac.revoke_role(1, 2, 1), Err(Error::RoleNotExist));
    let admin = rbac.add_role("admin".as_bytes(), &[], true).unwrap();
    assert_eq!(rbac.revoke_role(3, 2, admin), Err(Error::NotAuthorized));
}

// The loose-coupling traits expose the same operations.
#[test]
fn test_trait_interface() {
    let mut rbac = new_test_ext();
    let admin = <Pallet as AddRole>::add_role(&mut rbac, "admin".as_bytes(), &[], true).unwrap();
    <Pallet as PreassignRole>::preassign_role(&mut rbac, 1, admin).unwrap();
    assert!(<Pallet as Authorize>::authorize(&rbac, &1, &[admin]));
    assert!(!<Pallet as Authorize>::authorize(&rbac, &2, &[admin]));
}

// The read-only surface of the directory and the ledger.
#[test]
fn test_lookup_and_assignments() {
    let mut rbac = new_test_ext();
    assert!(rbac.roles(1).is_none());
    let admin = rbac.add_role("admin".as_bytes(), &[], false).unwrap();
    let info = rbac.roles(admin).unwrap();
    assert_eq!(info.name, "admin".as_bytes().to_vec());
    assert!(info.granters.is_empty());
    assert!(!rbac.assignments(&1, admin));
    rbac.preassign_role(1, admin).unwrap();
    assert!(rbac.assignments(&1, admin));
}
