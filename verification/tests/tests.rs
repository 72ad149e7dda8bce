//! The engine's behaviour on its administrative surface: creation, granting,
//! revocation and authorization, with their error cases.

use pallet_rbac::{Config, Error, Event, InterfaceError, Pallet};

fn new_test_ext() -> Pallet {
    Pallet::new(Config { name_max_length: 20, granters_list_max_length: 20 })
}

/// Add two roles and check that their ids are different
#[test]
fn test_role_add() {
    let mut rbac = new_test_ext();
    let role_id_1 = rbac.add_role("role_1".as_bytes(), &[], true).unwrap();

    let role_id_2 = rbac.add_role("role_2".as_bytes(), &[role_id_1], false).unwrap();

    assert!(role_id_1 != role_id_2);
}

/// Add a role, grant it to the user, check that user can authorize
/// revoke it from the user and check the authorization once again
#[test]
fn test_grant_revoke_and_authorize() {
    let mut rbac = new_test_ext();
    // Add admin role
    let role_id_admin = rbac.add_role("admin".as_bytes(), &[], true).unwrap();

    let account_id_admin = 1_u64;

    rbac.preassign_role(account_id_admin, role_id_admin).unwrap();

    // Add user role
    let role_id_user = rbac.add_role("user".as_bytes(), &[role_id_admin], true).unwrap();

    // Grant a role
    let account_id_user = 2_u64;

    assert!(rbac
        .grant_role(account_id_admin, account_id_user, role_id_user)
        .is_ok());

    // Check that the role is granted and user can authorize
    assert_eq!(
        rbac.events.last(),
        Some(&Event::RoleGranted {
            user: account_id_user,
            role_id: role_id_user,
        })
    );
    assert!(rbac.authorize(&account_id_user, &[role_id_user]));

    // Revoke the role
    assert!(rbac
        .revoke_role(account_id_admin, account_id_user, role_id_user)
        .is_ok());

    // Check that the role is revoked and user can't authorize
    assert_eq!(
        rbac.events.last(),
        Some(&Event::RoleRevoked {
            user: account_id_user,
            role_id: role_id_user,
        })
    );
    assert!(!rbac.authorize(&account_id_user, &[role_id_user]));
}

// Add a role and try to grant it from the user who is not authorized
#[test]
fn test_grant_not_authorized() {
    let mut rbac = new_test_ext();
    // Create a role
    let role_id_admin = rbac.add_role("admin".as_bytes(), &[], true).unwrap();

    // This user is not authorized to grant this role
    let account_id_not_authorized = 2_u64;

    let account_id_user = 3_u64;

    // Check that not authorized user can't grant this role
    assert_eq!(
        rbac.grant_role(account_id_not_authorized, account_id_user, role_id_admin),
        Err(Error::NotAuthorized)
    );

    // Check that user who was tried to grant a role can't authorize
    assert!(!rbac.authorize(&account_id_user, &[role_id_admin]));
}

// Grant a role that does not exist. Should throw an error
#[test]
fn test_grant_role_not_exists() {
    let mut rbac = new_test_ext();
    let account_id_user = 1_u64;
    // there is no role with this id
    let non_existent_role = 1_u64;

    // check that this role is not present
    assert_eq!(
        rbac.grant_role(account_id_user, account_id_user, non_existent_role),
        Err(Error::RoleNotExist)
    );
}

// Add a role with a name too long and check the error
#[test]
fn test_too_long_name() {
    let mut rbac = new_test_ext();
    let too_long_name = "adminadminadminadminadmin";
    assert_eq!(
        rbac.add_role(too_long_name.as_bytes(), &[], true),
        Err(InterfaceError::NameTooLong {
            expected: 20,
            observed: too_long_name.len()
        })
    );
}

// Add a role with too many granters and check the error
#[test]
fn test_too_many_granters() {
    let mut rbac = new_test_ext();
    let too_many_granters = [
        1, 2, 3, 4, 5, 6, 7, 8, 9, 10, 11, 12, 13, 14, 15, 16, 17, 18, 19, 20, 21,
    ];
    assert_eq!(
        rbac.add_role("admin".as_bytes(), &too_many_granters, false),
        Err(InterfaceError::GrantersListTooLong {
            expected: 20,
            observed: too_many_granters.len()
        })
    );
}
