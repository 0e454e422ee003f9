//! The authorized set: the principals that may administer the factory.

use crate::principal::{ids, Principal};
use vstd::prelude::*;

verus! {

/// The set after `user` was authorized: unchanged if `user` is a member,
/// else with `user` behind the others.
pub open spec fn authorized(users: Seq<Seq<u8>>, user: Seq<u8>) -> Seq<Seq<u8>> {
    if users.contains(user) {
        users
    } else {
        users.push(user)
    }
}

/// Holds of every principal but `user`.
pub open spec fn other_than(user: Seq<u8>) -> spec_fn(Seq<u8>) -> bool {
    |u: Seq<u8>| u != user
}

/// The set after `user` was revoked: the others, in their order.
pub open spec fn revoked(users: Seq<Seq<u8>>, user: Seq<u8>) -> Seq<Seq<u8>> {
    users.filter(other_than(user))
}

/// What is written down of a set before a restart: its members, in order.
pub open spec fn snapshot_of(users: Seq<Seq<u8>>) -> Seq<Seq<u8>> {
    users
}

/// The set that a snapshot gives after a restart: the snapshot as it is,
/// whatever it holds.
pub open spec fn restored(snapshot: Seq<Seq<u8>>) -> Seq<Seq<u8>> {
    snapshot
}

/// The authorized principals, in the order in which they were added. The view
/// is the sequence of their byte strings.
#[derive(Clone, Debug, PartialEq, Eq)]
pub struct Users {
    list: Vec<Principal>,
}

impl View for Users {
    type V = Seq<Seq<u8>>;

    closed spec fn view(&self) -> Seq<Seq<u8>> {
        ids(self.list@)
    }
}

impl Default for Users {
    /// The set without members.
    fn default() -> (users: Users)
        ensures
            users@ == Seq::<Seq<u8>>::empty(),
    {
        let list: Vec<Principal> = Vec::new();
        assert(ids(list@) =~= Seq::<Seq<u8>>::empty());
        Users { list }
    }
}

impl Users {
    /// The set with one member.
    pub fn new(first: Principal) -> (users: Users)
        ensures
            users@ == seq![first@],
    {
        let mut list: Vec<Principal> = Vec::new();
        list.push(first);
        assert(ids(list@) =~= seq![first@]);
        Users { list }
    }

    /// How many principals the set lists.
    pub fn len(&self) -> (n: usize)
        ensures
            n == self@.len(),
    {
        self.list.len()
    }

    /// Whether `who` is a member.
    pub fn is_authorized(&self, who: &Principal) -> (found: bool)
        ensures
            found == self@.contains(who@),
    {
        let mut i: usize = 0;
        while i < self.list.len()
            invariant
                i <= self.list@.len(),
                forall|j: int| 0 <= j < i ==> self@[j] != who@,
            decreases self.list@.len() - i,
        {
            if self.list[i] == *who {
                assert(self@[i as int] == who@);
                return true;
            }
            i += 1;
        }
        false
    }

    /// Adds `who`, unless it is a member already.
    pub fn authorize(&mut self, who: Principal)
        ensures
            final(self)@ == authorized(old(self)@, who@),
    {
        if !self.is_authorized(&who) {
            self.list.push(who);
            assert(ids(self.list@) =~= ids(old(self).list@).push(who@));
        }
    }

    /// Removes `who`, wherever it stands.
    pub fn revoke(&mut self, who: &Principal)
        ensures
            final(self)@ == revoked(old(self)@, who@),
    {
        let ghost other = other_than(who@);
        let mut kept: Vec<Principal> = Vec::new();
        let mut i: usize = 0;
        proof {
            reveal(Seq::filter);
            assert(self@.subrange(0, 0) =~= Seq::<Seq<u8>>::empty());
            assert(ids(kept@) =~= Seq::<Seq<u8>>::empty());
        }
        while i < self.list.len()
            invariant
                i <= self.list@.len(),
                other == other_than(who@),
                ids(kept@) == self@.subrange(0, i as int).filter(other),
            decreases self.list@.len() - i,
        {
            let p = self.list[i];
            proof {
                reveal(Seq::filter);
                let before = self@.subrange(0, i as int);
                let after = self@.subrange(0, i + 1);
                assert(after.drop_last() =~= before);
                assert(after.last() == p@);
            }
            if p != *who {
                let ghost shorter = kept@;
                kept.push(p);
                assert(ids(kept@) =~= ids(shorter).push(p@));
            }
            i += 1;
        }
        assert(self@.subrange(0, i as int) =~= self@);
        self.list = kept;
    }

    /// The members as they are written down before a restart.
    pub fn snapshot(&self) -> (list: Vec<Principal>)
        ensures
            ids(list@) == snapshot_of(self@),
    {
        self.list.clone()
    }

    /// The set that a snapshot holds, taken as it is.
    pub fn restore(list: Vec<Principal>) -> (users: Users)
        ensures
            users@ == restored(ids(list@)),
    {
        Users { list }
    }
}

/// Authorizing a principal twice leaves the set as authorizing it once does.
pub proof fn lemma_authorize_idempotent(users: Seq<Seq<u8>>, user: Seq<u8>)
    ensures
        authorized(authorized(users, user), user) == authorized(users, user),
{
    if !users.contains(user) {
        assert(users.push(user)[users.len() as int] == user);
    }
}

/// Revoking a principal that is no member changes nothing.
pub proof fn lemma_revoke_absent(users: Seq<Seq<u8>>, user: Seq<u8>)
    requires
        !users.contains(user),
    ensures
        revoked(users, user) == users,
    decreases users.len(),
{
    reveal(Seq::filter);
    if users.len() > 0 {
        let front = users.drop_last();
        assert forall|u: Seq<u8>| front.contains(u) implies users.contains(u) by {
            let i = choose|i: int| 0 <= i < front.len() && front[i] == u;
            assert(users[i] == u);
        }
        assert(users.last() == users[users.len() - 1]);
        lemma_revoke_absent(front, user);
        assert(front.push(users.last()) =~= users);
    }
}

/// Revoking a principal twice leaves the set as revoking it once does.
pub proof fn lemma_revoke_idempotent(users: Seq<Seq<u8>>, user: Seq<u8>)
    ensures
        revoked(revoked(users, user), user) == revoked(users, user),
{
    lemma_revoked_members(users, user);
    assert(!revoked(users, user).to_set().contains(user));
    lemma_revoke_absent(revoked(users, user), user);
}

/// As a set, the authorized set after `user` was authorized is the set before
/// with `user` in it.
pub proof fn lemma_authorized_members(users: Seq<Seq<u8>>, user: Seq<u8>)
    ensures
        authorized(users, user).to_set() == users.to_set().insert(user),
{
    if users.contains(user) {
        assert(users.to_set().insert(user) =~= users.to_set());
    } else {
        users.lemma_push_to_set_commute(user);
    }
}

/// As a set, the authorized set after `user` was revoked is the set before
/// without `user`.
pub proof fn lemma_revoked_members(users: Seq<Seq<u8>>, user: Seq<u8>)
    ensures
        revoked(users, user).to_set() == users.to_set().remove(user),
{
    let other = other_than(user);
    let left = users.filter(other);
    assert forall|u: Seq<u8>| left.to_set().contains(u) <==> users.to_set().remove(user).contains(
        u,
    ) by {
        if left.contains(u) {
            users.lemma_filter_contains_rev(other, u);
            let i = choose|i: int| 0 <= i < left.len() && left[i] == u;
            users.lemma_filter_pred(other, i);
        }
        if users.contains(u) && u != user {
            let i = choose|i: int| 0 <= i < users.len() && users[i] == u;
            users.lemma_filter_contains(other, i);
        }
    }
    assert(left.to_set() =~= users.to_set().remove(user));
}

/// A set that lists no principal twice still lists none twice after one was
/// authorized.
pub proof fn lemma_authorized_unique(users: Seq<Seq<u8>>, user: Seq<u8>)
    requires
        users.no_duplicates(),
    ensures
        authorized(users, user).no_duplicates(),
{
}

/// A set that lists no principal twice still lists none twice after one was
/// revoked.
pub proof fn lemma_revoked_unique(users: Seq<Seq<u8>>, user: Seq<u8>)
    requires
        users.no_duplicates(),
    ensures
        revoked(users, user).no_duplicates(),
    decreases users.len(),
{
    reveal(Seq::filter);
    if users.len() > 0 {
        let other = other_than(user);
        let front = users.drop_last();
        let last = users.last();
        lemma_revoked_unique(front, user);
        if front.filter(other).contains(last) {
            front.lemma_filter_contains_rev(other, last);
            let i = choose|i: int| 0 <= i < front.len() && front[i] == last;
            assert(users[i] == users[users.len() - 1]);
        }
    }
}

/// What a snapshot of a set restores is that set: the same members, and in
/// the same order.
pub proof fn lemma_snapshot_round_trip(users: Seq<Seq<u8>>)
    ensures
        restored(snapshot_of(users)) == users,
        restored(snapshot_of(users)).to_set() == users.to_set(),
{
}

} // verus!
