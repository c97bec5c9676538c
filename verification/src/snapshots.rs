//! The rate-limit snapshots fetched for the saved accounts, by account id.

use vstd::prelude::*;

use crate::account_id::AccountId;
use crate::limits::RateLimitSnapshot;

verus! {

/// Rate-limit snapshots by account id; at most one per account.
#[derive(Debug)]
pub struct AccountLimitSnapshots {
    entries: Vec<(AccountId, RateLimitSnapshot)>,
}

impl View for AccountLimitSnapshots {
    type V = Map<Seq<char>, RateLimitSnapshot>;

    closed spec fn view(&self) -> Map<Seq<char>, RateLimitSnapshot> {
        Map::new(
            |k: Seq<char>| exists|i: int| 0 <= i < self.entries@.len() && #[trigger] self.entries@[i].0@ == k,
            |k: Seq<char>|
                self.entries@[choose|i: int| 0 <= i < self.entries@.len() && #[trigger] self.entries@[i].0@ == k].1,
        )
    }
}

impl AccountLimitSnapshots {
    #[verifier::type_invariant]
    closed spec fn keys_distinct(self) -> bool {
        forall|i: int, j: int|
            0 <= i < self.entries@.len() && 0 <= j < self.entries@.len() && i != j
                ==> self.entries@[i].0@ != self.entries@[j].0@
    }

    /// No snapshots.
    pub fn new() -> (r: Self)
        ensures
            r@ == Map::<Seq<char>, RateLimitSnapshot>::empty(),
    {
        let r = AccountLimitSnapshots { entries: Vec::new() };
        assert(r@ =~= Map::<Seq<char>, RateLimitSnapshot>::empty());
        r
    }

    fn find(&self, id: &AccountId) -> (r: Option<usize>)
        ensures
            match r {
                Some(i) => i < self.entries@.len() && self.entries@[i as int].0@ == id@,
                None => forall|i: int| 0 <= i < self.entries@.len() ==> self.entries@[i].0@ != id@,
            },
    {
        let mut i: usize = 0;
        while i < self.entries.len()
            invariant
                i <= self.entries@.len(),
                forall|j: int| 0 <= j < i ==> self.entries@[j].0@ != id@,
            decreases self.entries@.len() - i,
        {
            if self.entries[i].0 == *id {
                return Some(i);
            }
            i = i + 1;
        }
        None
    }

    proof fn lemma_lookup(&self, i: int)
        requires
            self.keys_distinct(),
            0 <= i < self.entries@.len(),
        ensures
            self@.contains_key(self.entries@[i].0@),
            self@[self.entries@[i].0@] == self.entries@[i].1,
    {
        let k = self.entries@[i].0@;
        assert(self@.dom().contains(k));
        let c = choose|c: int| 0 <= c < self.entries@.len() && #[trigger] self.entries@[c].0@ == k;
        assert(c == i);
    }

    /// Whether a snapshot is held for `id`.
    pub fn contains_key(&self, id: &AccountId) -> (r: bool)
        ensures
            r == self@.contains_key(id@),
    {
        proof { use_type_invariant(self); }
        match self.find(id) {
            Some(i) => {
                proof { self.lemma_lookup(i as int); }
                true
            },
            None => false,
        }
    }

    /// The snapshot held for `id`.
    pub fn get(&self, id: &AccountId) -> (r: Option<&RateLimitSnapshot>)
        ensures
            match r {
                Some(s) => self@.contains_key(id@) && *s == self@[id@],
                None => !self@.contains_key(id@),
            },
    {
        proof { use_type_invariant(self); }
        match self.find(id) {
            Some(i) => {
                proof { self.lemma_lookup(i as int); }
                Some(&self.entries[i].1)
            },
            None => None,
        }
    }

    /// Holds `snapshot` for `id`, in place of any snapshot held for it before.
    pub fn insert(&mut self, id: AccountId, snapshot: RateLimitSnapshot)
        ensures
            final(self)@ == old(self)@.insert(id@, snapshot),
    {
        proof { use_type_invariant(&*self); }
        let ghost key = id@;
        let ghost before = self.entries@;
        let ghost old_map = self@;
        match self.find(&id) {
            Some(i) => {
                let mut entries = Vec::new();
                std::mem::swap(&mut entries, &mut self.entries);
                entries.set(i, (id, snapshot));
                self.entries = entries;
            },
            None => {
                let mut entries = Vec::new();
                std::mem::swap(&mut entries, &mut self.entries);
                entries.push((id, snapshot));
                self.entries = entries;
            },
        }
        proof {
            let after = self.entries@;
            assert forall|k: Seq<char>| #[trigger] self@.contains_key(k) == old_map.insert(key, snapshot).contains_key(k) by {
                if k != key {
                    if old_map.contains_key(k) {
                        let c = choose|c: int| 0 <= c < before.len() && #[trigger] before[c].0@ == k;
                        assert(after[c].0@ == k);
                    }
                    if self@.contains_key(k) {
                        let c = choose|c: int| 0 <= c < after.len() && #[trigger] after[c].0@ == k;
                        assert(before[c].0@ == k);
                    }
                } else {
                    let p = if before.len() < after.len() { before.len() as int } else {
                        choose|c: int| 0 <= c < before.len() && #[trigger] before[c].0@ == k
                    };
                    assert(after[p].0@ == k);
                }
            }
            assert forall|k: Seq<char>| self@.contains_key(k) implies #[trigger] self@[k] == old_map.insert(key, snapshot)[k] by {
                let c = choose|c: int| 0 <= c < after.len() && #[trigger] after[c].0@ == k;
                self.lemma_lookup(c);
                if k != key {
                    assert(before[c].0@ == k);
                    assert(after[c] == before[c]);
                    assert(old_map.contains_key(k));
                    let d = choose|d: int| 0 <= d < before.len() && #[trigger] before[d].0@ == k;
                    assert(d == c);
                }
            }
            assert(self@ =~= old_map.insert(key, snapshot));
        }
    }
}

} // verus!
