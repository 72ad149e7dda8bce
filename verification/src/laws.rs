//! Laws of the engine, stated over the transition relations of the
//! administrative operations and proved once and for all.

use vstd::prelude::*;

use crate::add_role_ok;
use crate::grant_ok;
use crate::revoke_ok;
use crate::spec_authorized;
use crate::AccountId;
use crate::Pallet;
use crate::RoleId;

verus! {

/// An authorization challenge against the empty role list always fails,
/// whatever is held.
pub proof fn lemma_authorize_empty(held: Set<(AccountId, RoleId)>, account: AccountId)
    ensures
        !spec_authorized(held, account, Seq::<RoleId>::empty()),
{
}

/// Identifiers returned by successful role creations are strictly increasing
/// in issuance order, and hence pairwise distinct. The second creation may
/// start from any state reached after the first: every operation of the
/// engine keeps the allocator's last issued value from decreasing, which is
/// the premise relating the two states.
pub proof fn lemma_role_ids_strictly_increase(
    pre1: Pallet,
    post1: Pallet,
    name1: Seq<u8>,
    granters1: Seq<RoleId>,
    self_grant1: bool,
    id1: RoleId,
    pre2: Pallet,
    post2: Pallet,
    name2: Seq<u8>,
    granters2: Seq<RoleId>,
    self_grant2: bool,
    id2: RoleId,
)
    requires
        add_role_ok(pre1, post1, name1, granters1, self_grant1, id1),
        post1.directory.generator.last <= pre2.directory.generator.last,
        add_role_ok(pre2, post2, name2, granters2, self_grant2, id2),
    ensures
        id1 < id2,
        id1 != id2,
{
}

/// After a successful grant, the grantee is authorized for the granted role.
pub proof fn lemma_grant_then_authorized(
    pre: Pallet,
    post: Pallet,
    caller: AccountId,
    user: AccountId,
    role_id: RoleId,
)
    requires
        grant_ok(pre, post, caller, user, role_id),
    ensures
        spec_authorized(post.ledger@, user, seq![role_id]),
{
    assert(post.ledger@.contains((user, seq![role_id][0])));
}

/// After a successful revocation, the principal is no longer authorized for
/// the revoked role.
pub proof fn lemma_revoke_then_not_authorized(
    pre: Pallet,
    post: Pallet,
    caller: AccountId,
    user: AccountId,
    role_id: RoleId,
)
    requires
        revoke_ok(pre, post, caller, user, role_id),
    ensures
        !spec_authorized(post.ledger@, user, seq![role_id]),
{
    assert forall|i: int| 0 <= i < seq![role_id].len() implies !post.ledger@.contains(
        (user, #[trigger] seq![role_id][i]),
    ) by {
        assert(seq![role_id][i] == role_id);
    }
}

/// Granting a role that is already held leaves the held relation unchanged
/// (and, as `grant_ok` presupposes nothing about the pair, still succeeds).
pub proof fn lemma_grant_idempotent(
    pre: Pallet,
    post: Pallet,
    caller: AccountId,
    user: AccountId,
    role_id: RoleId,
)
    requires
        grant_ok(pre, post, caller, user, role_id),
        pre.ledger@.contains((user, role_id)),
    ensures
        post.ledger@ == pre.ledger@,
{
    assert(post.ledger@ =~= pre.ledger@);
}

/// Revoking a role that is not held leaves the held relation unchanged (and
/// still succeeds).
pub proof fn lemma_revoke_idempotent(
    pre: Pallet,
    post: Pallet,
    caller: AccountId,
    user: AccountId,
    role_id: RoleId,
)
    requires
        revoke_ok(pre, post, caller, user, role_id),
        !pre.ledger@.contains((user, role_id)),
    ensures
        post.ledger@ == pre.ledger@,
{
    assert(post.ledger@ =~= pre.ledger@);
}

} // verus!
