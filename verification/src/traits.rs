//! The loosely coupled interface of the engine: authorization queries and the
//! trusted bootstrap operations, stated over abstract views of the role store
//! so that consumers depend only on these contracts.

use vstd::prelude::*;

use crate::AccountId;
use crate::RoleId;

verus! {

/// Errors of the trusted bootstrap interface ([`AddRole`] and
/// [`PreassignRole`]).
#[derive(Clone, Copy, Debug, PartialEq, Eq)]
pub enum InterfaceError {
    /// The referenced role is absent from the directory.
    RoleNotExist,
    /// The role name is longer than the deployment's limit.
    NameTooLong { expected: u32, observed: usize },
    /// The final granter list is longer than the deployment's limit.
    GrantersListTooLong { expected: u32, observed: usize },
}

/// True iff `account` holds at least one role of `roles` under the held
/// relation `held`; false for an empty list. This is the sole trust decision
/// primitive of the engine.
pub open spec fn spec_authorized(
    held: Set<(AccountId, RoleId)>,
    account: AccountId,
    roles: Seq<RoleId>,
) -> bool {
    exists|i: int| 0 <= i < roles.len() && #[trigger] held.contains((account, roles[i]))
}

/// The authorization query: challenges a principal against a role list.
pub trait Authorize {
    /// The (principal, role) pairs currently held.
    spec fn held_pairs(&self) -> Set<(AccountId, RoleId)>;

    /// Returns true iff `user` currently holds at least one role of `roles`.
    fn authorize(&self, user: &AccountId, roles: &[RoleId]) -> (r: bool)
        ensures
            r == spec_authorized(self.held_pairs(), *user, roles@),
    ;
}

/// Creation of new roles. Reserved for trusted bootstrap callers; it bypasses
/// all authorization checks.
pub trait AddRole {
    /// The store's internal invariant, as far as role creation needs it.
    spec fn creation_ready(&self) -> bool;

    /// The last role identifier issued so far.
    spec fn last_issued(&self) -> RoleId;

    /// Maximum role-name length of the deployment, in bytes.
    spec fn name_limit(&self) -> u32;

    /// Maximum length of a role's final granter list.
    spec fn granters_limit(&self) -> u32;

    /// Whether a role with this identifier exists.
    spec fn role_present(&self, id: RoleId) -> bool;

    /// The stored name of a role.
    spec fn role_name(&self, id: RoleId) -> Seq<u8>;

    /// The stored granter list of a role.
    spec fn role_granters(&self, id: RoleId) -> Seq<RoleId>;

    /// Creates a role named `name` whose granter list is `granters`, with the
    /// newly issued identifier appended to it when `can_assign_itself` is
    /// set. Succeeds, returning the fresh identifier, if and only if both
    /// bounded fields are within the deployment's limits; a failed creation
    /// leaves the store unchanged, the allocator included.
    fn add_role(
        &mut self,
        name: &[u8],
        granters: &[RoleId],
        can_assign_itself: bool,
    ) -> (r: Result<RoleId, InterfaceError>)
        requires
            old(self).creation_ready(),
            old(self).last_issued() < RoleId::MAX,
        ensures
            final(self).creation_ready(),
            final(self).name_limit() == old(self).name_limit(),
            final(self).granters_limit() == old(self).granters_limit(),
            final(self).last_issued() >= old(self).last_issued(),
            (forall|j: RoleId| #![trigger final(self).role_present(j)]
                old(self).role_present(j) ==> final(self).role_present(j)
                    && final(self).role_name(j) == old(self).role_name(j)
                    && final(self).role_granters(j) == old(self).role_granters(j)),
            ({
                let id = (old(self).last_issued() + 1) as RoleId;
                let fg = if can_assign_itself {
                    granters@.push(id)
                } else {
                    granters@
                };
                &&& (r == Ok::<RoleId, InterfaceError>(id) <==> name@.len()
                    <= old(self).name_limit() && fg.len() <= old(self).granters_limit())
                &&& (r is Ok ==> r == Ok::<RoleId, InterfaceError>(id))
                &&& (r is Ok ==> final(self).last_issued() == id && final(self).role_present(id)
                    && final(self).role_name(id) == name@ && final(self).role_granters(id) == fg)
                &&& (name@.len() > old(self).name_limit() ==> r == Err::<
                    RoleId,
                    InterfaceError,
                >(
                    InterfaceError::NameTooLong {
                        expected: old(self).name_limit(),
                        observed: name@.len() as usize,
                    },
                ))
                &&& (name@.len() <= old(self).name_limit()
                    && fg.len() > old(self).granters_limit()
                    ==> r == Err::<RoleId, InterfaceError>(
                    InterfaceError::GrantersListTooLong {
                        expected: old(self).granters_limit(),
                        observed: fg.len() as usize,
                    },
                ))
                &&& (r is Err ==> final(self).last_issued() == old(self).last_issued()
                    && (forall|j: RoleId| #![trigger final(self).role_present(j)]
                        final(self).role_present(j) == old(self).role_present(j)))
            }),
    ;
}

/// Assignment of a role to a principal without any authorization check.
/// Reserved for trusted initialization callers, never reachable from ordinary
/// request handling.
pub trait PreassignRole {
    /// The store's internal invariant, as far as preassignment needs it.
    spec fn preassign_ready(&self) -> bool;

    /// The (principal, role) pairs currently held.
    spec fn assigned_pairs(&self) -> Set<(AccountId, RoleId)>;

    /// Whether a role with this identifier exists.
    spec fn role_known(&self, id: RoleId) -> bool;

    /// Makes `user` hold `role`. Succeeds if and only if the role exists; a
    /// failed call leaves the held relation unchanged.
    fn preassign_role(&mut self, user: AccountId, role: RoleId) -> (r: Result<
        (),
        InterfaceError,
    >)
        requires
            old(self).preassign_ready(),
        ensures
            final(self).preassign_ready(),
            r is Ok <==> old(self).role_known(role),
            r is Ok ==> final(self).assigned_pairs() == old(self).assigned_pairs().insert(
                (user, role),
            ),
            r is Err ==> r == Err::<(), InterfaceError>(InterfaceError::RoleNotExist)
                && final(self).assigned_pairs() == old(self).assigned_pairs(),
            (forall|j: RoleId| #![trigger final(self).role_known(j)]
                final(self).role_known(j) == old(self).role_known(j)),
    ;
}

} // verus!
