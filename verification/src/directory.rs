//! The identifier allocator and the role directory: a write-once mapping from
//! role identifier to role metadata, with bounded-size enforcement at
//! creation.

use vstd::prelude::*;

use crate::traits::InterfaceError;
use crate::Config;
use crate::RoleId;

verus! {

/// Metadata of one role: its name and the list of roles whose holders may
/// grant or revoke it. Immutable once stored in the directory.
#[derive(Debug, PartialEq, Eq)]
pub struct RoleInfo {
    /// Role name, at most `Config::name_max_length` bytes.
    pub name: Vec<u8>,
    /// Identifiers of the granter roles, at most
    /// `Config::granters_list_max_length` entries.
    pub granters: Vec<RoleId>,
}

impl RoleInfo {
    /// Both bounded fields are within the deployment's limits.
    pub open spec fn bounded(self, config: Config) -> bool {
        &&& self.name@.len() <= config.name_max_length
        &&& self.granters@.len() <= config.granters_list_max_length
    }
}

/// Produces unique, strictly increasing role identifiers. `last` is the last
/// identifier issued so far, 0 when none was.
pub struct IdGenerator {
    /// The last issued identifier; never decreases.
    pub last: RoleId,
}

impl IdGenerator {
    /// A fresh allocator that has issued nothing.
    pub fn new() -> (g: IdGenerator)
        ensures
            g.last == 0,
    {
        IdGenerator { last: 0 }
    }

    /// Issues the successor of the last issued identifier and persists it as
    /// the new last one.
    pub fn next(&mut self) -> (id: RoleId)
        requires
            old(self).last < RoleId::MAX,
        ensures
            final(self).last == old(self).last + 1,
            id == final(self).last,
    {
        self.last = self.last + 1;
        self.last
    }
}

/// Copies a slice into a fresh vector.
pub(crate) fn copy_slice<T: Copy>(s: &[T]) -> (v: Vec<T>)
    ensures
        v@ == s@,
{
    let mut v: Vec<T> = Vec::new();
    let mut i: usize = 0;
    while i < s.len()
        invariant
            i <= s.len(),
            v@ == s@.subrange(0, i as int),
        decreases s.len() - i,
    {
        let x: T = s[i];
        v.push(x);
        proof {
            assert(v@ =~= s@.subrange(0, i as int + 1));
        }
        i = i + 1;
    }
    proof {
        assert(v@ =~= s@);
    }
    v
}

/// Persistent mapping from role identifier to role metadata, write-once per
/// identifier. Identifiers are issued contiguously from 1 by the embedded
/// allocator, so the role with identifier `id` sits at index `id - 1`.
pub struct RoleDirectory {
    /// The allocator whose last issued identifier equals the number of
    /// stored roles.
    pub generator: IdGenerator,
    /// The stored roles, in order of creation.
    pub roles: Vec<RoleInfo>,
}

impl RoleDirectory {
    /// The directory's invariant: the allocator agrees with the number of
    /// stored roles, and every stored role is within the deployment's
    /// limits.
    pub open spec fn wf(self, config: Config) -> bool {
        &&& self.generator.last == self.roles@.len()
        &&& forall|i: int|
            0 <= i < self.roles@.len() ==> (#[trigger] self.roles@[i]).bounded(config)
    }

    /// Whether a role with this identifier exists.
    pub open spec fn spec_contains(self, id: RoleId) -> bool {
        1 <= id <= self.roles@.len()
    }

    /// The stored name of the role with this identifier.
    pub open spec fn spec_name(self, id: RoleId) -> Seq<u8> {
        self.roles@[id - 1].name@
    }

    /// The stored granter list of the role with this identifier.
    pub open spec fn spec_granters(self, id: RoleId) -> Seq<RoleId> {
        self.roles@[id - 1].granters@
    }

    /// An empty directory whose allocator has issued nothing.
    pub fn new() -> (d: RoleDirectory)
        ensures
            forall|c: Config| #[trigger] d.wf(c),
            d.generator.last == 0,
            d.roles@.len() == 0,
    {
        RoleDirectory { generator: IdGenerator::new(), roles: Vec::new() }
    }

    /// Whether a role with this identifier exists.
    pub fn contains_key(&self, id: RoleId) -> (present: bool)
        ensures
            present == self.spec_contains(id),
    {
        1 <= id && id <= self.roles.len() as u64
    }

    /// Reads the metadata of the role with this identifier.
    pub fn lookup(&self, id: RoleId) -> (r: Option<&RoleInfo>)
        ensures
            match r {
                Some(info) => self.spec_contains(id) && info.name@ == self.spec_name(id)
                    && info.granters@ == self.spec_granters(id),
                None => !self.spec_contains(id),
            },
    {
        if 1 <= id && id <= self.roles.len() as u64 {
            Some(&self.roles[(id - 1) as usize])
        } else {
            None
        }
    }

    /// Creates a role: allocates the next identifier, appends it to the
    /// supplied granters when `self_grant` is set, validates both bounded
    /// fields against `config`, and stores the metadata under the new
    /// identifier. A rejected creation leaves the directory unchanged and
    /// consumes no identifier.
    pub fn create(
        &mut self,
        config: &Config,
        name: &[u8],
        granters: &[RoleId],
        self_grant: bool,
    ) -> (r: Result<RoleId, InterfaceError>)
        requires
            old(self).wf(*config),
            old(self).generator.last < RoleId::MAX,
        ensures
            final(self).wf(*config),
            final(self).generator.last >= old(self).generator.last,
            ({
                let id = (old(self).generator.last + 1) as RoleId;
                let fg = if self_grant {
                    granters@.push(id)
                } else {
                    granters@
                };
                &&& (r == Ok::<RoleId, InterfaceError>(id) <==> name@.len()
                    <= config.name_max_length && fg.len() <= config.granters_list_max_length)
                &&& (r is Ok ==> r == Ok::<RoleId, InterfaceError>(id))
                &&& (r is Ok ==> final(self).generator.last == id
                    && final(self).roles@.len() == old(self).roles@.len() + 1
                    && final(self).spec_name(id) == name@
                    && final(self).spec_granters(id) == fg)
                &&& (name@.len() > config.name_max_length ==> r == Err::<
                    RoleId,
                    InterfaceError,
                >(
                    InterfaceError::NameTooLong {
                        expected: config.name_max_length,
                        observed: name@.len() as usize,
                    },
                ))
                &&& (name@.len() <= config.name_max_length && fg.len()
                    > config.granters_list_max_length ==> r == Err::<RoleId, InterfaceError>(
                    InterfaceError::GrantersListTooLong {
                        expected: config.granters_list_max_length,
                        observed: fg.len() as usize,
                    },
                ))
                &&& (r is Err ==> *final(self) == *old(self))
            }),
            (forall|i: int|
                0 <= i < old(self).roles@.len() ==> #[trigger] final(self).roles@[i] == old(
                    self,
                ).roles@[i]),
    {
        let id = self.generator.last + 1;
        let mut final_granters = copy_slice(granters);
        if self_grant {
            final_granters.push(id);
        }
        if name.len() > config.name_max_length as usize {
            return Err(
                InterfaceError::NameTooLong {
                    expected: config.name_max_length,
                    observed: name.len(),
                },
            );
        }
        if final_granters.len() > config.granters_list_max_length as usize {
            return Err(
                InterfaceError::GrantersListTooLong {
                    expected: config.granters_list_max_length,
                    observed: final_granters.len(),
                },
            );
        }
        let issued = self.generator.next();
        self.roles.push(RoleInfo { name: copy_slice(name), granters: final_granters });
        Ok(issued)
    }
}

} // verus!
