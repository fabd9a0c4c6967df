use vstd::prelude::*;

use crate::account::AccountId;

verus! {

/// A map from account identifiers to balances, with unique keys.
///
/// Keys are held in insertion order beside their balances; the ghost field
/// `model` is the map the two vectors stand for.
pub struct AccountLedger {
    ids: Vec<AccountId>,
    balances: Vec<u128>,
    model: Ghost<Map<Seq<char>, u128>>,
}

impl View for AccountLedger {
    type V = Map<Seq<char>, u128>;

    closed spec fn view(&self) -> Map<Seq<char>, u128> {
        self.model@
    }
}

impl AccountLedger {
    /// The vectors agree with the model and hold each key once.
    pub closed spec fn wf(&self) -> bool {
        &&& self.ids.len() == self.balances.len()
        &&& forall|i: int|
            0 <= i < self.ids.len() ==> {
                &&& self.model@.contains_key(#[trigger] self.ids@[i]@)
                &&& self.model@[self.ids@[i]@] == self.balances@[i]
            }
        &&& forall|k: Seq<char>|
            #[trigger] self.model@.contains_key(k) ==> exists|i: int|
                0 <= i < self.ids.len() && #[trigger] self.ids@[i]@ == k
        &&& forall|i: int, j: int|
            0 <= i < self.ids.len() && 0 <= j < self.ids.len() && i != j ==> #[trigger] self.ids@[i]@
                != #[trigger] self.ids@[j]@
    }

    pub fn new() -> (r: AccountLedger)
        ensures
            r.wf(),
            r@ == Map::<Seq<char>, u128>::empty(),
    {
        AccountLedger { ids: Vec::new(), balances: Vec::new(), model: Ghost(Map::empty()) }
    }

    /// Number of accounts held.
    pub fn len(&self) -> (r: usize)
        requires
            self.wf(),
        ensures
            r == self@.len(),
    {
        proof {
            self.lemma_len();
        }
        self.ids.len()
    }

    proof fn lemma_len(&self)
        requires
            self.wf(),
        ensures
            self@.dom().finite(),
            self@.len() == self.ids.len(),
        decreases self.ids.len(),
    {
        let keys = Seq::new(self.ids.len() as nat, |i: int| self.ids@[i]@);
        assert(keys.no_duplicates());
        assert forall|k: Seq<char>| self@.dom().contains(k) <==> keys.contains(k) by {
            if self@.contains_key(k) {
                let i = choose|i: int| 0 <= i < self.ids.len() && #[trigger] self.ids@[i]@ == k;
                assert(keys[i] == k);
            }
        }
        assert(self@.dom() =~= keys.to_set());
        keys.unique_seq_to_set();
    }

    /// Position of `id` among the keys, if it is there.
    fn find(&self, id: &AccountId) -> (r: Option<usize>)
        requires
            self.wf(),
        ensures
            match r {
                Some(i) => i < self.ids.len() && self.ids@[i as int]@ == id@,
                None => !self@.contains_key(id@),
            },
    {
        let mut i: usize = 0;
        while i < self.ids.len()
            invariant
                self.wf(),
                i <= self.ids.len(),
                forall|j: int| 0 <= j < i ==> self.ids@[j]@ != id@,
            decreases self.ids.len() - i,
        {
            if self.ids[i] == *id {
                return Some(i);
            }
            i = i + 1;
        }
        None
    }

    pub fn contains_key(&self, id: &AccountId) -> (r: bool)
        requires
            self.wf(),
        ensures
            r == self@.contains_key(id@),
    {
        self.find(id).is_some()
    }

    pub fn get(&self, id: &AccountId) -> (r: Option<u128>)
        requires
            self.wf(),
        ensures
            r == (if self@.contains_key(id@) {
                Some(self@[id@])
            } else {
                None
            }),
    {
        match self.find(id) {
            Some(i) => Some(self.balances[i]),
            None => None,
        }
    }

    /// Sets the balance of `id`, and returns the balance it replaced.
    pub fn insert(&mut self, id: &AccountId, balance: u128) -> (r: Option<u128>)
        requires
            old(self).wf(),
        ensures
            final(self).wf(),
            final(self)@ == old(self)@.insert(id@, balance),
            r == (if old(self)@.contains_key(id@) {
                Some(old(self)@[id@])
            } else {
                None
            }),
    {
        match self.find(id) {
            Some(i) => {
                let prior = self.balances[i];
                self.balances.set(i, balance);
                self.model = Ghost(self.model@.insert(id@, balance));
                proof {
                    let s = *self;
                    assert forall|j: int| 0 <= j < s.ids.len() implies {
                        &&& s.model@.contains_key(#[trigger] s.ids@[j]@)
                        &&& s.model@[s.ids@[j]@] == s.balances@[j]
                    } by {
                        if j != i {
                            assert(old(self).ids@[j]@ != old(self).ids@[i as int]@);
                        }
                    }
                    assert forall|k: Seq<char>| #[trigger] s.model@.contains_key(k) implies exists|j: int|
                        0 <= j < s.ids.len() && #[trigger] s.ids@[j]@ == k by {
                        if k == id@ {
                            assert(s.ids@[i as int]@ == k);
                        } else {
                            assert(old(self).model@.contains_key(k));
                        }
                    }
                }
                Some(prior)
            },
            None => {
                let ghost n = self.ids.len() as int;
                self.ids.push(id.clone());
                self.balances.push(balance);
                self.model = Ghost(self.model@.insert(id@, balance));
                proof {
                    let s = *self;
                    assert forall|j: int| 0 <= j < s.ids.len() implies {
                        &&& s.model@.contains_key(#[trigger] s.ids@[j]@)
                        &&& s.model@[s.ids@[j]@] == s.balances@[j]
                    } by {
                        if j < n {
                            assert(old(self).model@.contains_key(old(self).ids@[j]@));
                        }
                    }
                    assert forall|k: Seq<char>| #[trigger] s.model@.contains_key(k) implies exists|j: int|
                        0 <= j < s.ids.len() && #[trigger] s.ids@[j]@ == k by {
                        if k == id@ {
                            assert(s.ids@[n]@ == k);
                        } else {
                            assert(old(self).model@.contains_key(k));
                            let j = choose|j: int|
                                0 <= j < n && #[trigger] old(self).ids@[j]@ == k;
                            assert(s.ids@[j]@ == k);
                        }
                    }
                    assert forall|a: int, b: int|
                        0 <= a < s.ids.len() && 0 <= b < s.ids.len() && a != b implies #[trigger] s.ids@[a]@
                        != #[trigger] s.ids@[b]@ by {
                        if a < n && b < n {
                            assert(old(self).ids@[a]@ != old(self).ids@[b]@);
                        } else if a < n {
                            assert(old(self).model@.contains_key(old(self).ids@[a]@));
                        } else {
                            assert(old(self).model@.contains_key(old(self).ids@[b]@));
                        }
                    }
                }
                None
            },
        }
    }

    /// Every account with its balance, each once, in the order of insertion.
    pub fn entries(&self) -> (r: Vec<(AccountId, u128)>)
        requires
            self.wf(),
        ensures
            r.len() == self@.len(),
            forall|i: int|
                0 <= i < r.len() ==> {
                    &&& self@.contains_key(#[trigger] r@[i].0@)
                    &&& self@[r@[i].0@] == r@[i].1
                },
            forall|k: Seq<char>|
                #[trigger] self@.contains_key(k) ==> exists|i: int|
                    0 <= i < r.len() && #[trigger] r@[i].0@ == k,
    {
        proof {
            self.lemma_len();
        }
        let mut r: Vec<(AccountId, u128)> = Vec::new();
        let mut i: usize = 0;
        while i < self.ids.len()
            invariant
                self.wf(),
                i <= self.ids.len(),
                r.len() == i,
                forall|j: int| 0 <= j < i ==> (#[trigger] r@[j]).0@ == self.ids@[j]@ && r@[j].1
                    == self.balances@[j],
            decreases self.ids.len() - i,
        {
            r.push((self.ids[i].clone(), self.balances[i]));
            i = i + 1;
        }
        assert forall|k: Seq<char>| #[trigger] self@.contains_key(k) implies exists|j: int|
            0 <= j < r.len() && #[trigger] r@[j].0@ == k by {
            let j = choose|j: int| 0 <= j < self.ids.len() && #[trigger] self.ids@[j]@ == k;
            assert(r@[j].0@ == k);
        }
        assert forall|j: int| 0 <= j < r.len() implies {
            &&& self@.contains_key(#[trigger] r@[j].0@)
            &&& self@[r@[j].0@] == r@[j].1
        } by {
            assert(r@[j].0@ == self.ids@[j]@);
        }
        r
    }

    /// Takes `id` out of the map, and returns the balance it held.
    pub fn remove(&mut self, id: &AccountId) -> (r: Option<u128>)
        requires
            old(self).wf(),
        ensures
            final(self).wf(),
            final(self)@ == old(self)@.remove(id@),
            r == (if old(self)@.contains_key(id@) {
                Some(old(self)@[id@])
            } else {
                None
            }),
    {
        match self.find(id) {
            Some(i) => {
                let ghost last = self.ids.len() - 1;
                let _ = self.ids.swap_remove(i);
                let prior = self.balances.swap_remove(i);
                self.model = Ghost(self.model@.remove(id@));
                proof {
                    let s = *self;
                    let o = *old(self);
                    assert forall|j: int| 0 <= j < s.ids.len() implies {
                        &&& s.model@.contains_key(#[trigger] s.ids@[j]@)
                        &&& s.model@[s.ids@[j]@] == s.balances@[j]
                    } by {
                        let src = if j == i { last } else { j };
                        assert(s.ids@[j] == o.ids@[src]);
                        assert(o.ids@[src]@ != o.ids@[i as int]@);
                        assert(o.model@.contains_key(o.ids@[src]@));
                    }
                    assert forall|k: Seq<char>| #[trigger] s.model@.contains_key(k) implies exists|j: int|
                        0 <= j < s.ids.len() && #[trigger] s.ids@[j]@ == k by {
                        assert(o.model@.contains_key(k));
                        let j = choose|j: int| 0 <= j < o.ids.len() && #[trigger] o.ids@[j]@ == k;
                        if j == last {
                            assert(s.ids@[i as int]@ == k);
                        } else {
                            assert(s.ids@[j]@ == k);
                        }
                    }
                    assert forall|a: int, b: int|
                        0 <= a < s.ids.len() && 0 <= b < s.ids.len() && a != b implies #[trigger] s.ids@[a]@
                        != #[trigger] s.ids@[b]@ by {
                        let sa = if a == i { last } else { a };
                        let sb = if b == i { last } else { b };
                        assert(s.ids@[a] == o.ids@[sa]);
                        assert(s.ids@[b] == o.ids@[sb]);
                        assert(o.ids@[sa]@ != o.ids@[sb]@);
                    }
                }
                Some(prior)
            },
            None => {
                proof {
                    assert(self.model@.remove(id@) =~= self.model@);
                }
                None
            },
        }
    }
}

} // verus!
