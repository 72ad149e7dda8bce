//! A role-based access-control engine: named roles with delegated granting
//! rights, a held/not-held assignment ledger, and an authorization query.
//!
//! Roles are created through [`AddRole::add_role`], which allocates a fresh
//! identifier, validates the bounded name and granter list, and stores the
//! role's metadata in the [`RoleDirectory`]. Granting and revoking a role is
//! gated by [`Authorize::authorize`] over the role's granter list; only the
//! administration entry points mutate the [`AssignmentLedger`]. Every
//! state-changing entry point records the notification it signals in the
//! engine's event log.

use vstd::prelude::*;

mod directory;
mod laws;
mod ledger;
mod traits;

pub use directory::IdGenerator;
pub use directory::RoleDirectory;
pub use directory::RoleInfo;
pub use laws::lemma_authorize_empty;
pub use laws::lemma_grant_idempotent;
pub use laws::lemma_grant_then_authorized;
pub use laws::lemma_revoke_idempotent;
pub use laws::lemma_revoke_then_not_authorized;
pub use laws::lemma_role_ids_strictly_increase;
pub use ledger::AssignmentLedger;
pub use traits::spec_authorized;
pub use traits::AddRole;
pub use traits::Authorize;
pub use traits::InterfaceError;
pub use traits::PreassignRole;

verus! {

/// Identifier of a principal. Supplied by the caller; the engine never
/// interprets its structure.
pub type AccountId = u64;

/// Identifier of a role. Issued only by the [`IdGenerator`]; never reused.
pub type RoleId = u64;

/// Deployment-time limits of the engine.
#[derive(Clone, Copy, Debug, PartialEq, Eq)]
pub struct Config {
    /// Maximum length of a role name, in bytes.
    pub name_max_length: u32,
    /// Maximum number of entries in a role's final granter list.
    pub granters_list_max_length: u32,
}

/// Errors of the administrative entry points [`Pallet::grant_role`] and
/// [`Pallet::revoke_role`].
#[derive(Clone, Copy, Debug, PartialEq, Eq)]
pub enum Error {
    /// The caller holds none of the role's granter roles.
    NotAuthorized,
    /// The referenced role is absent from the directory.
    RoleNotExist,
}

/// Notifications signaled to the hosting environment. Each state-changing
/// entry point appends the notification it signals to [`Pallet::events`].
#[derive(Debug, PartialEq, Eq)]
pub enum Event {
    /// A role was created.
    RoleCreated { id: RoleId, info: RoleInfo },
    /// A role was granted to a principal.
    RoleGranted { user: AccountId, role_id: RoleId },
    /// A role was revoked from a principal.
    RoleRevoked { user: AccountId, role_id: RoleId },
}

/// The engine: the role directory with its identifier allocator, the
/// assignment ledger, the deployment's limits, and the log of signaled
/// notifications.
pub struct Pallet {
    /// Deployment-time limits.
    pub config: Config,
    /// The role directory, together with the identifier allocator.
    pub directory: RoleDirectory,
    /// The held relation between principals and roles.
    pub ledger: AssignmentLedger,
    /// Notifications signaled so far, oldest first.
    pub events: Vec<Event>,
}

/// Holds of `ev` iff it announces the creation of role `id` with this name
/// and final granter list.
pub open spec fn role_created_event(
    ev: Event,
    id: RoleId,
    name: Seq<u8>,
    granters: Seq<RoleId>,
) -> bool {
    match ev {
        Event::RoleCreated { id: eid, info } => eid == id && info.name@ == name
            && info.granters@ == granters,
        _ => false,
    }
}

/// The transition of a successful `grant_role(caller, user, role_id)` call:
/// the role exists, the caller holds one of its granter roles, the pair
/// (user, role_id) is added to the held relation, a `RoleGranted`
/// notification is signaled, and nothing else changes.
pub open spec fn grant_ok(
    pre: Pallet,
    post: Pallet,
    caller: AccountId,
    user: AccountId,
    role_id: RoleId,
) -> bool {
    &&& pre.role_exists(role_id)
    &&& spec_authorized(pre.ledger@, caller, pre.directory.spec_granters(role_id))
    &&& post.config == pre.config
    &&& post.directory == pre.directory
    &&& post.ledger@ == pre.ledger@.insert((user, role_id))
    &&& post.events@ == pre.events@.push(Event::RoleGranted { user, role_id })
}

/// The transition of a successful `revoke_role(caller, user, role_id)` call:
/// the same gating as for granting, the pair (user, role_id) is removed from
/// the held relation, and a `RoleRevoked` notification is signaled.
pub open spec fn revoke_ok(
    pre: Pallet,
    post: Pallet,
    caller: AccountId,
    user: AccountId,
    role_id: RoleId,
) -> bool {
    &&& pre.role_exists(role_id)
    &&& spec_authorized(pre.ledger@, caller, pre.directory.spec_granters(role_id))
    &&& post.config == pre.config
    &&& post.directory == pre.directory
    &&& post.ledger@ == pre.ledger@.remove((user, role_id))
    &&& post.events@ == pre.events@.push(Event::RoleRevoked { user, role_id })
}

/// The transition of a successful `preassign_role(user, role)` call: the
/// role exists, the pair is added to the held relation, and no notification
/// is signaled.
pub open spec fn preassign_ok(pre: Pallet, post: Pallet, user: AccountId, role: RoleId) -> bool {
    &&& pre.role_exists(role)
    &&& post.config == pre.config
    &&& post.directory == pre.directory
    &&& post.ledger@ == pre.ledger@.insert((user, role))
    &&& post.events@ == pre.events@
}

/// The transition of a successful `add_role(name, granters, self_grant)`
/// call that returned `id`: the allocator issued `id`, the role's name and
/// final granter list passed the deployment's limits and were stored under
/// `id`, every earlier role is untouched, the ledger is untouched, and a
/// `RoleCreated` notification carrying the stored metadata is signaled.
pub open spec fn add_role_ok(
    pre: Pallet,
    post: Pallet,
    name: Seq<u8>,
    granters: Seq<RoleId>,
    self_grant: bool,
    id: RoleId,
) -> bool {
    let fg = if self_grant {
        granters.push(id)
    } else {
        granters
    };
    &&& id == pre.directory.generator.last + 1
    &&& name.len() <= pre.config.name_max_length
    &&& fg.len() <= pre.config.granters_list_max_length
    &&& post.config == pre.config
    &&& post.ledger == pre.ledger
    &&& post.directory.generator.last == id
    &&& post.directory.roles@.len() == pre.directory.roles@.len() + 1
    &&& (forall|i: int|
        0 <= i < pre.directory.roles@.len() ==> #[trigger] post.directory.roles@[i]
            == pre.directory.roles@[i])
    &&& post.directory.spec_name(id) == name
    &&& post.directory.spec_granters(id) == fg
    &&& post.events@.len() == pre.events@.len() + 1
    &&& (forall|i: int|
        0 <= i < pre.events@.len() ==> #[trigger] post.events@[i] == pre.events@[i])
    &&& role_created_event(post.events@.last(), id, name, fg)
}

impl Pallet {
    /// The engine's invariant: the directory and the ledger are well formed,
    /// and every held pair refers to a role that exists in the directory.
    pub open spec fn wf(self) -> bool {
        &&& self.directory.wf(self.config)
        &&& self.ledger.wf()
        &&& forall|p: (AccountId, RoleId)| #[trigger]
            self.ledger@.contains(p) ==> self.directory.spec_contains(p.1)
    }

    /// Whether a role with this identifier exists in the directory.
    pub open spec fn role_exists(self, id: RoleId) -> bool {
        self.directory.spec_contains(id)
    }

    /// A fresh engine with the given limits: no roles, no assignments, no
    /// signaled notifications.
    pub fn new(config: Config) -> (p: Pallet)
        ensures
            p.wf(),
            p.config == config,
            p.directory.generator.last == 0,
            p.directory.roles@.len() == 0,
            p.ledger@ == Set::<(AccountId, RoleId)>::empty(),
            p.events@.len() == 0,
    {
        Pallet {
            config,
            directory: RoleDirectory::new(),
            ledger: AssignmentLedger::new(),
            events: Vec::new(),
        }
    }

    /// Grants `role_id` to `user` on behalf of `caller`. Succeeds iff the
    /// role exists and `caller` holds one of its granter roles; on success
    /// the pair is held afterwards and a `RoleGranted` notification is
    /// signaled. A failed call changes nothing.
    pub fn grant_role(&mut self, caller: AccountId, user: AccountId, role_id: RoleId) -> (r:
        Result<(), Error>)
        requires
            old(self).wf(),
        ensures
            final(self).wf(),
            r is Ok <==> old(self).role_exists(role_id) && spec_authorized(
                old(self).ledger@,
                caller,
                old(self).directory.spec_granters(role_id),
            ),
            r is Ok ==> grant_ok(*old(self), *final(self), caller, user, role_id),
            !old(self).role_exists(role_id) ==> r == Err::<(), Error>(Error::RoleNotExist),
            old(self).role_exists(role_id) && !spec_authorized(
                old(self).ledger@,
                caller,
                old(self).directory.spec_granters(role_id),
            ) ==> r == Err::<(), Error>(Error::NotAuthorized),
            r is Err ==> *final(self) == *old(self),
    {
        let authorized: bool;
        match self.directory.lookup(role_id) {
            None => {
                return Err(Error::RoleNotExist);
            },
            Some(role) => {
                authorized = self.ledger.any_held(&caller, role.granters.as_slice());
            },
        }
        if !authorized {
            return Err(Error::NotAuthorized);
        }
        self.ledger.set_held(user, role_id);
        self.events.push(Event::RoleGranted { user, role_id });
        Ok(())
    }

    /// Revokes `role_id` from `user` on behalf of `caller`, under the same
    /// gating as granting; on success the pair is no longer held and a
    /// `RoleRevoked` notification is signaled. A failed call changes
    /// nothing.
    pub fn revoke_role(&mut self, caller: AccountId, user: AccountId, role_id: RoleId) -> (r:
        Result<(), Error>)
        requires
            old(self).wf(),
        ensures
            final(self).wf(),
            r is Ok <==> old(self).role_exists(role_id) && spec_authorized(
                old(self).ledger@,
                caller,
                old(self).directory.spec_granters(role_id),
            ),
            r is Ok ==> revoke_ok(*old(self), *final(self), caller, user, role_id),
            !old(self).role_exists(role_id) ==> r == Err::<(), Error>(Error::RoleNotExist),
            old(self).role_exists(role_id) && !spec_authorized(
                old(self).ledger@,
                caller,
                old(self).directory.spec_granters(role_id),
            ) ==> r == Err::<(), Error>(Error::NotAuthorized),
            r is Err ==> *final(self) == *old(self),
    {
        let authorized: bool;
        match self.directory.lookup(role_id) {
            None => {
                return Err(Error::RoleNotExist);
            },
            Some(role) => {
                authorized = self.ledger.any_held(&caller, role.granters.as_slice());
            },
        }
        if !authorized {
            return Err(Error::NotAuthorized);
        }
        self.ledger.clear_held(user, role_id);
        self.events.push(Event::RoleRevoked { user, role_id });
        Ok(())
    }

    /// Challenges `user` against a role list: true iff `user` currently
    /// holds at least one role of `roles`.
    pub fn authorize(&self, user: &AccountId, roles: &[RoleId]) -> (r: bool)
        ensures
            r == spec_authorized(self.ledger@, *user, roles@),
    {
        self.ledger.any_held(user, roles)
    }

    /// Creates a role and signals a `RoleCreated` notification carrying the
    /// stored metadata. Succeeds iff the name and the final granter list are
    /// within the deployment's limits; a failed call changes nothing, the
    /// allocator included.
    pub fn add_role(
        &mut self,
        name: &[u8],
        granters: &[RoleId],
        can_assign_itself: bool,
    ) -> (r: Result<RoleId, InterfaceError>)
        requires
            old(self).wf(),
            old(self).directory.generator.last < RoleId::MAX,
        ensures
            final(self).wf(),
            final(self).directory.generator.last >= old(self).directory.generator.last,
            ({
                let id = (old(self).directory.generator.last + 1) as RoleId;
                let fg = if can_assign_itself {
                    granters@.push(id)
                } else {
                    granters@
                };
                &&& (r == Ok::<RoleId, InterfaceError>(id) <==> name@.len()
                    <= old(self).config.name_max_length && fg.len()
                    <= old(self).config.granters_list_max_length)
                &&& (r is Ok ==> add_role_ok(
                    *old(self),
                    *final(self),
                    name@,
                    granters@,
                    can_assign_itself,
                    id,
                ))
                &&& (name@.len() > old(self).config.name_max_length ==> r == Err::<
                    RoleId,
                    InterfaceError,
                >(
                    InterfaceError::NameTooLong {
                        expected: old(self).config.name_max_length,
                        observed: name@.len() as usize,
                    },
                ))
                &&& (name@.len() <= old(self).config.name_max_length
                    && fg.len() > old(self).config.granters_list_max_length
                    ==> r == Err::<RoleId, InterfaceError>(
                    InterfaceError::GrantersListTooLong {
                        expected: old(self).config.granters_list_max_length,
                        observed: fg.len() as usize,
                    },
                ))
                &&& (r is Err ==> *final(self) == *old(self))
            }),
    {
        let r = self.directory.create(&self.config, name, granters, can_assign_itself);
        match r {
            Ok(id) => {
                let mut event_granters = directory::copy_slice(granters);
                if can_assign_itself {
                    event_granters.push(id);
                }
                let info = RoleInfo {
                    name: directory::copy_slice(name),
                    granters: event_granters,
                };
                self.events.push(Event::RoleCreated { id, info });
                Ok(id)
            },
            Err(e) => Err(e),
        }
    }

    /// Makes `user` hold `role` without any authorization check; reserved
    /// for trusted initialization. Succeeds iff the role exists; no
    /// notification is signaled. A failed call changes nothing.
    pub fn preassign_role(&mut self, user: AccountId, role: RoleId) -> (r: Result<
        (),
        InterfaceError,
    >)
        requires
            old(self).wf(),
        ensures
            final(self).wf(),
            r is Ok <==> old(self).role_exists(role),
            r is Ok ==> preassign_ok(*old(self), *final(self), user, role),
            r is Err ==> r == Err::<(), InterfaceError>(InterfaceError::RoleNotExist)
                && *final(self) == *old(self),
    {
        if !self.directory.contains_key(role) {
            return Err(InterfaceError::RoleNotExist);
        }
        self.ledger.set_held(user, role);
        Ok(())
    }

    /// Whether `user` currently holds `role`.
    pub fn assignments(&self, user: &AccountId, role: RoleId) -> (held: bool)
        ensures
            held == self.ledger@.contains((*user, role)),
    {
        self.ledger.is_held(user, role)
    }

    /// Reads the stored metadata of a role.
    pub fn roles(&self, id: RoleId) -> (r: Option<&RoleInfo>)
        ensures
            match r {
                Some(info) => self.role_exists(id) && info.name@ == self.directory.spec_name(id)
                    && info.granters@ == self.directory.spec_granters(id),
                None => !self.role_exists(id),
            },
    {
        self.directory.lookup(id)
    }
}

impl Authorize for Pallet {
    open spec fn held_pairs(&self) -> Set<(AccountId, RoleId)> {
        self.ledger@
    }

    fn authorize(&self, user: &AccountId, roles: &[RoleId]) -> (r: bool) {
        Pallet::authorize(self, user, roles)
    }
}

impl AddRole for Pallet {
    open spec fn creation_ready(&self) -> bool {
        self.wf()
    }

    open spec fn last_issued(&self) -> RoleId {
        self.directory.generator.last
    }

    open spec fn name_limit(&self) -> u32 {
        self.config.name_max_length
    }

    open spec fn granters_limit(&self) -> u32 {
        self.config.granters_list_max_length
    }

    open spec fn role_present(&self, id: RoleId) -> bool {
        self.directory.spec_contains(id)
    }

    open spec fn role_name(&self, id: RoleId) -> Seq<u8> {
        self.directory.spec_name(id)
    }

    open spec fn role_granters(&self, id: RoleId) -> Seq<RoleId> {
        self.directory.spec_granters(id)
    }

    fn add_role(
        &mut self,
        name: &[u8],
        granters: &[RoleId],
        can_assign_itself: bool,
    ) -> (r: Result<RoleId, InterfaceError>) {
        Pallet::add_role(self, name, granters, can_assign_itself)
    }
}

impl PreassignRole for Pallet {
    open spec fn preassign_ready(&self) -> bool {
        self.wf()
    }

    open spec fn assigned_pairs(&self) -> Set<(AccountId, RoleId)> {
        self.ledger@
    }

    open spec fn role_known(&self, id: RoleId) -> bool {
        self.directory.spec_contains(id)
    }

    fn preassign_role(&mut self, user: AccountId, role: RoleId) -> (r: Result<
        (),
        InterfaceError,
    >) {
        Pallet::preassign_role(self, user, role)
    }
}

} // verus!
