//! The assignment ledger: the persistent relation saying which principal
//! currently holds which role, together with the authorization query over
//! it.

use vstd::prelude::*;
use vstd::seq_lib::*;

use crate::traits::spec_authorized;
use crate::AccountId;
use crate::RoleId;

verus! {

/// The held relation between principals and roles. Logically a set of
/// currently held (principal, role) pairs; stored as a duplicate-free vector.
pub struct AssignmentLedger {
    /// The held pairs, each at most once.
    pub held: Vec<(AccountId, RoleId)>,
}

impl View for AssignmentLedger {
    type V = Set<(AccountId, RoleId)>;

    open spec fn view(&self) -> Set<(AccountId, RoleId)> {
        self.held@.to_set()
    }
}

impl AssignmentLedger {
    /// The ledger's invariant: no pair is recorded twice.
    pub open spec fn wf(self) -> bool {
        self.held@.no_duplicates()
    }

    /// An empty ledger: nobody holds anything.
    pub fn new() -> (l: AssignmentLedger)
        ensures
            l.wf(),
            l@ == Set::<(AccountId, RoleId)>::empty(),
    {
        let l = AssignmentLedger { held: Vec::new() };
        proof {
            assert(l@ =~= Set::<(AccountId, RoleId)>::empty());
        }
        l
    }

    /// Position of the pair in the stored vector, if it is held.
    fn find(&self, account: &AccountId, role: RoleId) -> (r: Option<usize>)
        ensures
            match r {
                Some(i) => i < self.held@.len() && self.held@[i as int] == (*account, role),
                None => !self@.contains((*account, role)),
            },
    {
        let mut i: usize = 0;
        while i < self.held.len()
            invariant
                i <= self.held@.len(),
                forall|j: int| 0 <= j < i ==> #[trigger] self.held@[j] != (*account, role),
            decreases self.held@.len() - i,
        {
            let entry = self.held[i];
            if entry.0 == *account && entry.1 == role {
                return Some(i);
            }
            i = i + 1;
        }
        None
    }

    /// Whether `account` currently holds `role`.
    pub fn is_held(&self, account: &AccountId, role: RoleId) -> (held: bool)
        ensures
            held == self@.contains((*account, role)),
    {
        match self.find(account, role) {
            Some(_) => true,
            None => false,
        }
    }

    /// Whether `account` currently holds at least one role of `roles`.
    /// Stops at the first held role.
    pub fn any_held(&self, account: &AccountId, roles: &[RoleId]) -> (r: bool)
        ensures
            r == spec_authorized(self@, *account, roles@),
    {
        let mut i: usize = 0;
        while i < roles.len()
            invariant
                i <= roles@.len(),
                !spec_authorized(self@, *account, roles@.subrange(0, i as int)),
            decreases roles@.len() - i,
        {
            if self.is_held(account, roles[i]) {
                proof {
                    assert(self@.contains((*account, roles@[i as int])));
                }
                return true;
            }
            proof {
                let prefix = roles@.subrange(0, i as int + 1);
                assert forall|j: int| 0 <= j < prefix.len() implies !self@.contains(
                    (*account, #[trigger] prefix[j]),
                ) by {
                    if j < i {
                        assert(prefix[j] == roles@.subrange(0, i as int)[j]);
                    } else {
                        assert(prefix[j] == roles@[i as int]);
                    }
                }
            }
            i = i + 1;
        }
        proof {
            assert(roles@.subrange(0, roles@.len() as int) =~= roles@);
        }
        false
    }

    /// Makes `account` hold `role`. A no-op when the pair is already held.
    pub fn set_held(&mut self, account: AccountId, role: RoleId)
        requires
            old(self).wf(),
        ensures
            final(self).wf(),
            final(self)@ == old(self)@.insert((account, role)),
    {
        match self.find(&account, role) {
            Some(i) => {
                proof {
                    assert(self.held@.contains((account, role))) by {
                        assert(self.held@[i as int] == (account, role));
                    }
                    assert(self@ =~= self@.insert((account, role)));
                }
            },
            None => {
                self.held.push((account, role));
                proof {
                    let s = old(self).held@;
                    let p = (account, role);
                    lemma_push_to_set(s, p);
                    assert forall|a: int, b: int|
                        0 <= a < self.held@.len() && 0 <= b < self.held@.len() && a
                            != b implies self.held@[a] != self.held@[b] by {
                        if a < s.len() && b < s.len() {
                            assert(self.held@[a] == s[a] && self.held@[b] == s[b]);
                        } else if a == s.len() && b < s.len() {
                            assert(self.held@[b] == s[b]);
                            if s[b] == p {
                                assert(s.contains(p));
                            }
                        } else if b == s.len() && a < s.len() {
                            assert(self.held@[a] == s[a]);
                            if s[a] == p {
                                assert(s.contains(p));
                            }
                        }
                    }
                }
            },
        }
    }

    /// Makes `account` no longer hold `role`. A no-op when the pair is not
    /// held.
    pub fn clear_held(&mut self, account: AccountId, role: RoleId)
        requires
            old(self).wf(),
        ensures
            final(self).wf(),
            final(self)@ == old(self)@.remove((account, role)),
    {
        match self.find(&account, role) {
            Some(i) => {
                self.held.remove(i);
                proof {
                    lemma_remove_to_set(old(self).held@, i as int, (account, role));
                }
            },
            None => {
                proof {
                    assert(!self@.contains((account, role)));
                    assert(self@ =~= self@.remove((account, role)));
                }
            },
        }
    }
}

/// Appending a pair to the stored vector inserts it into the held relation.
proof fn lemma_push_to_set(s: Seq<(AccountId, RoleId)>, p: (AccountId, RoleId))
    ensures
        s.push(p).to_set() == s.to_set().insert(p),
{
    assert forall|q: (AccountId, RoleId)|
        s.push(p).to_set().contains(q) <==> s.to_set().insert(p).contains(q) by {
        if s.push(p).contains(q) {
            let i = choose|i: int| 0 <= i < s.push(p).len() && s.push(p)[i] == q;
            if i < s.len() {
                assert(s[i] == q);
            }
        }
        if s.contains(q) {
            let i = choose|i: int| 0 <= i < s.len() && s[i] == q;
            assert(s.push(p)[i] == q);
        }
        assert(s.push(p)[s.len() as int] == p);
    }
    assert(s.push(p).to_set() =~= s.to_set().insert(p));
}

/// Removing the one position where a pair is stored removes it from the held
/// relation.
proof fn lemma_remove_to_set(s: Seq<(AccountId, RoleId)>, i: int, p: (AccountId, RoleId))
    requires
        0 <= i < s.len(),
        s[i] == p,
        s.no_duplicates(),
    ensures
        s.remove(i).to_set() == s.to_set().remove(p),
        s.remove(i).no_duplicates(),
{
    s.remove_ensures(i);
    let t = s.remove(i);
    assert forall|q: (AccountId, RoleId)| t.to_set().contains(q) implies s.to_set().remove(
        p,
    ).contains(q) by {
        let j = choose|j: int| 0 <= j < t.len() && t[j] == q;
        if j < i {
            assert(s[j] == q);
            assert(q != p);
        } else {
            assert(s[j + 1] == q);
            assert(q != p);
        }
    }
    assert forall|q: (AccountId, RoleId)| s.to_set().remove(p).contains(q) implies t.to_set()
        .contains(q) by {
        let j = choose|j: int| 0 <= j < s.len() && s[j] == q;
        if j < i {
            assert(t[j] == q);
        } else {
            assert(j != i);
            assert(t[j - 1] == q);
        }
    }
    assert(t.to_set() =~= s.to_set().remove(p));
    assert forall|a: int, b: int|
        0 <= a < t.len() && 0 <= b < t.len() && a != b implies t[a] != t[b] by {
        let sa = if a < i { a } else { a + 1 };
        let sb = if b < i { b } else { b + 1 };
        assert(t[a] == s[sa]);
        assert(t[b] == s[sb]);
    }
}

} // verus!
