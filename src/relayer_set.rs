use vstd::prelude::*;

use crate::account::AccountId;

verus! {

/// The set of a sequence after a push: its set with the new item.
pub proof fn lemma_push_to_set<T>(s: Seq<T>, x: T)
    ensures
        s.push(x).to_set() == s.to_set().insert(x),
{
    assert forall|a: T| #[trigger] s.push(x).to_set().contains(a) <==> s.to_set().insert(x).contains(a) by {
        if s.contains(a) {
            let j = choose|j: int| 0 <= j < s.len() && s[j] == a;
            assert(s.push(x)[j] == a);
        }
        if a == x {
            assert(s.push(x)[s.len() as int] == a);
        }
        if s.push(x).contains(a) {
            let j = choose|j: int| 0 <= j < s.len() + 1 && s.push(x)[j] == a;
            if j < s.len() {
                assert(s[j] == a);
            }
        }
    }
    assert(s.push(x).to_set() =~= s.to_set().insert(x));
}

/// The identities that may relay rates. Membership is all that counts.
pub struct RelayerSet {
    members: Vec<AccountId>,
}

impl View for RelayerSet {
    type V = Set<AccountId>;

    closed spec fn view(&self) -> Set<AccountId> {
        self.members@.to_set()
    }
}

impl RelayerSet {
    pub fn new() -> (r: Self)
        ensures
            r@ == Set::<AccountId>::empty(),
    {
        let r = RelayerSet { members: Vec::new() };
        assert(r@ =~= Set::<AccountId>::empty());
        r
    }

    pub fn contains(&self, id: &AccountId) -> (r: bool)
        ensures
            r == self@.contains(*id),
    {
        let mut i: usize = 0;
        while i < self.members.len()
            invariant
                0 <= i <= self.members@.len(),
                forall|j: int| 0 <= j < i ==> self.members@[j] != *id,
            decreases self.members@.len() - i,
        {
            if self.members[i] == *id {
                return true;
            }
            i = i + 1;
        }
        false
    }

    /// Adds `id`; a member already present stays as it is.
    pub fn insert(&mut self, id: AccountId)
        ensures
            final(self)@ == old(self)@.insert(id),
    {
        if !self.contains(&id) {
            self.members.push(id);
            proof {
                lemma_push_to_set(old(self).members@, id);
            }
        }
        assert(self@ =~= old(self)@.insert(id));
    }

    /// Takes `id` out; an absent identity changes nothing.
    pub fn remove(&mut self, id: &AccountId)
        ensures
            final(self)@ == old(self)@.remove(*id),
    {
        let mut kept: Vec<AccountId> = Vec::new();
        let mut i: usize = 0;
        assert(kept@.to_set() =~= self.members@.take(0).to_set().remove(*id));
        while i < self.members.len()
            invariant
                0 <= i <= self.members@.len(),
                kept@.to_set() == self.members@.take(i as int).to_set().remove(*id),
            decreases self.members@.len() - i,
        {
            let m = self.members[i];
            let ghost before = kept@;
            proof {
                assert(self.members@.take(i + 1) == self.members@.take(i as int).push(m));
                lemma_push_to_set(self.members@.take(i as int), m);
            }
            if m != *id {
                kept.push(m);
                proof {
                    lemma_push_to_set(before, m);
                }
            }
            assert(kept@.to_set() =~= self.members@.take(i + 1).to_set().remove(*id));
            i = i + 1;
        }
        assert(self.members@.take(i as int) == self.members@);
        self.members = kept;
    }
}

} // verus!
