//! The registry store: plain key-value access over collection registrations
//! and active listings. Each store is a vector of entries with pairwise
//! distinct keys, abstracted as a `Map` from keys to values. No business
//! rule lives here; callers keep the marketplace invariants.

use crate::types::{AccountId, Item, RegisteredCollection, TokenId};
use vstd::prelude::*;

verus! {

/// Registrations of collections, keyed by collection identity.
pub struct CollectionStore {
    entries: Vec<(AccountId, RegisteredCollection)>,
}

impl View for CollectionStore {
    type V = Map<AccountId, RegisteredCollection>;

    closed spec fn view(&self) -> Map<AccountId, RegisteredCollection> {
        Map::new(|k: AccountId| self.has_key(k), |k: AccountId| self.val_at(self.index_for(k)))
    }
}

impl CollectionStore {
    spec fn len(self) -> int {
        self.entries@.len() as int
    }

    spec fn key_at(self, i: int) -> AccountId {
        self.entries@[i].0
    }

    spec fn val_at(self, i: int) -> RegisteredCollection {
        self.entries@[i].1
    }

    spec fn has_key(self, k: AccountId) -> bool {
        exists|i: int| 0 <= i < self.len() && self.key_at(i) == k
    }

    spec fn index_for(self, k: AccountId) -> int {
        choose|i: int| 0 <= i < self.len() && self.key_at(i) == k
    }

    /// The entries hold pairwise distinct keys.
    pub closed spec fn wf(self) -> bool {
        forall|i: int, j: int| 0 <= i < j < self.len() ==> self.key_at(i) != self.key_at(j)
    }

    /// The entry at index `i` is what the map view returns for its key.
    proof fn lemma_at(self, i: int)
        requires
            self.wf(),
            0 <= i < self.len(),
        ensures
            self@.contains_key(self.key_at(i)),
            self@[self.key_at(i)] == self.val_at(i),
    {
        assert(self.has_key(self.key_at(i)));
        let j = self.index_for(self.key_at(i));
        assert(0 <= j < self.len() && self.key_at(j) == self.key_at(i));
        if i < j {
            assert(self.key_at(i) != self.key_at(j));
        } else if j < i {
            assert(self.key_at(j) != self.key_at(i));
        }
        assert(j == i);
    }

    pub fn new() -> (r: Self)
        ensures
            r.wf(),
            r@ == Map::<AccountId, RegisteredCollection>::empty(),
    {
        let r = CollectionStore { entries: Vec::new() };
        proof {
            assert(r@ =~= Map::<AccountId, RegisteredCollection>::empty());
        }
        r
    }

    fn index_of(&self, k: AccountId) -> (r: Option<usize>)
        ensures
            match r {
                Some(i) => 0 <= i < self.len() && self.key_at(i as int) == k,
                None => !self.has_key(k),
            },
    {
        let mut i: usize = 0;
        while i < self.entries.len()
            invariant
                i <= self.entries@.len(),
                forall|j: int| 0 <= j < i ==> self.key_at(j) != k,
            decreases self.entries@.len() - i,
        {
            if self.entries[i].0 == k {
                return Some(i);
            }
            i = i + 1;
        }
        None
    }

    pub fn contains(&self, k: AccountId) -> (r: bool)
        ensures
            r == self@.contains_key(k),
    {
        self.index_of(k).is_some()
    }

    pub fn get(&self, k: AccountId) -> (r: Option<&RegisteredCollection>)
        requires
            self.wf(),
        ensures
            match r {
                Some(v) => self@.contains_key(k) && *v == self@[k],
                None => !self@.contains_key(k),
            },
    {
        match self.index_of(k) {
            Some(i) => {
                proof {
                    self.lemma_at(i as int);
                }
                Some(&self.entries[i].1)
            },
            None => None,
        }
    }

    /// Inserts or overwrites the value under `k`.
    pub fn put(&mut self, k: AccountId, v: RegisteredCollection)
        requires
            old(self).wf(),
        ensures
            final(self).wf(),
            final(self)@ == old(self)@.insert(k, v),
    {
        let ghost pre = *old(self);
        match self.index_of(k) {
            Some(i) => {
                self.entries.set(i, (k, v));
                proof {
                    assert forall|j: int| 0 <= j < self.len() implies #[trigger] self.key_at(j)
                        == pre.key_at(j) by {}
                    assert forall|k2: AccountId|
                        self@.contains_key(k2) == pre@.insert(k, v).contains_key(k2) by {
                        if k2 == k {
                            assert(self.key_at(i as int) == k2);
                            assert(self.has_key(k2));
                        } else {
                            assert(self.has_key(k2) == pre.has_key(k2)) by {
                                if self.has_key(k2) {
                                    let j = self.index_for(k2);
                                    assert(0 <= j < self.len() && self.key_at(j) == k2);
                                    assert(pre.key_at(j) == k2);
                                }
                                if pre.has_key(k2) {
                                    let j = pre.index_for(k2);
                                    assert(0 <= j < pre.len() && pre.key_at(j) == k2);
                                    assert(self.key_at(j) == k2);
                                }
                            }
                        }
                    }
                    assert forall|k2: AccountId| self@.contains_key(k2) implies self@[k2]
                        == pre@.insert(k, v)[k2] by {
                        let j = self.index_for(k2);
                        assert(0 <= j < self.len() && self.key_at(j) == k2);
                        self.lemma_at(j);
                        if k2 == k {
                            if j < i as int {
                                assert(self.key_at(j) != self.key_at(i as int));
                            } else if (i as int) < j {
                                assert(self.key_at(i as int) != self.key_at(j));
                            }
                            assert(j == i as int);
                        } else {
                            assert(pre.key_at(j) == k2);
                            pre.lemma_at(j);
                        }
                    }
                    assert(self@ =~= pre@.insert(k, v));
                }
            },
            None => {
                self.entries.push((k, v));
                proof {
                    let n = pre.len();
                    assert(self.len() == n + 1);
                    assert forall|j: int| 0 <= j < n implies #[trigger] self.key_at(j)
                        == pre.key_at(j) by {}
                    assert(self.key_at(n) == k);
                    assert(self.wf()) by {
                        assert forall|i2: int, j2: int|
                            0 <= i2 < j2 < self.len() implies self.key_at(i2) != self.key_at(
                            j2,
                        ) by {
                            if j2 == n {
                                assert(pre.key_at(i2) != k) by {
                                    assert(!pre.has_key(k));
                                }
                            }
                        }
                    }
                    assert forall|k2: AccountId|
                        self@.contains_key(k2) == pre@.insert(k, v).contains_key(k2) by {
                        if k2 == k {
                            assert(self.has_key(k2));
                        } else {
                            assert(self.has_key(k2) == pre.has_key(k2)) by {
                                if self.has_key(k2) {
                                    let j = self.index_for(k2);
                                    assert(0 <= j < self.len() && self.key_at(j) == k2);
                                    assert(j != n);
                                    assert(pre.key_at(j) == k2);
                                }
                                if pre.has_key(k2) {
                                    let j = pre.index_for(k2);
                                    assert(0 <= j < n && pre.key_at(j) == k2);
                                    assert(self.key_at(j) == k2);
                                }
                            }
                        }
                    }
                    assert forall|k2: AccountId| self@.contains_key(k2) implies self@[k2]
                        == pre@.insert(k, v)[k2] by {
                        let j = self.index_for(k2);
                        assert(0 <= j < self.len() && self.key_at(j) == k2);
                        self.lemma_at(j);
                        if k2 == k {
                            assert(j == n) by {
                                if j < n {
                                    assert(pre.key_at(j) == k);
                                    assert(!pre.has_key(k));
                                }
                            }
                        } else {
                            assert(j != n);
                            assert(pre.key_at(j) == k2);
                            pre.lemma_at(j);
                        }
                    }
                    assert(self@ =~= pre@.insert(k, v));
                }
            },
        }
    }

    /// Removes the entry under `k`, if any.
    pub fn remove(&mut self, k: AccountId)
        requires
            old(self).wf(),
        ensures
            final(self).wf(),
            final(self)@ == old(self)@.remove(k),
    {
        let ghost pre = *old(self);
        match self.index_of(k) {
            Some(i) => {
                self.entries.remove(i);
                proof {
                    let n = pre.len();
                    let ii = i as int;
                    assert(self.len() == n - 1);
                    assert forall|j: int| 0 <= j < self.len() implies #[trigger] self.key_at(j)
                        == (if j < ii {
                            pre.key_at(j)
                        } else {
                            pre.key_at(j + 1)
                        }) by {}
                    assert(self.wf()) by {
                        assert forall|i2: int, j2: int|
                            0 <= i2 < j2 < self.len() implies self.key_at(i2) != self.key_at(
                            j2,
                        ) by {}
                    }
                    assert forall|k2: AccountId|
                        self@.contains_key(k2) == pre@.remove(k).contains_key(k2) by {
                        if k2 == k {
                            assert(!self.has_key(k2)) by {
                                if self.has_key(k2) {
                                    let j = self.index_for(k2);
                                    assert(0 <= j < self.len() && self.key_at(j) == k2);
                                    if j < ii {
                                        assert(pre.key_at(j) == k && pre.key_at(ii) == k);
                                    } else {
                                        assert(pre.key_at(j + 1) == k && pre.key_at(ii) == k);
                                    }
                                }
                            }
                        } else {
                            assert(self.has_key(k2) == pre.has_key(k2)) by {
                                if self.has_key(k2) {
                                    let j = self.index_for(k2);
                                    assert(0 <= j < self.len() && self.key_at(j) == k2);
                                    if j < ii {
                                        assert(pre.key_at(j) == k2);
                                    } else {
                                        assert(pre.key_at(j + 1) == k2);
                                    }
                                }
                                if pre.has_key(k2) {
                                    let j = pre.index_for(k2);
                                    assert(0 <= j < n && pre.key_at(j) == k2);
                                    assert(j != ii);
                                    if j < ii {
                                        assert(self.key_at(j) == k2);
                                    } else {
                                        assert(self.key_at(j - 1) == k2);
                                    }
                                }
                            }
                        }
                    }
                    assert forall|k2: AccountId| self@.contains_key(k2) implies self@[k2]
                        == pre@.remove(k)[k2] by {
                        let j = self.index_for(k2);
                        assert(0 <= j < self.len() && self.key_at(j) == k2);
                        self.lemma_at(j);
                        if j < ii {
                            assert(pre.key_at(j) == k2);
                            pre.lemma_at(j);
                        } else {
                            assert(pre.key_at(j + 1) == k2);
                            pre.lemma_at(j + 1);
                        }
                    }
                    assert(self@ =~= pre@.remove(k));
                }
            },
            None => {
                proof {
                    assert(self@ =~= pre@.remove(k));
                }
            },
        }
    }
}

/// Active listings, keyed by collection and token identity.
pub struct ListingStore {
    entries: Vec<((AccountId, TokenId), Item)>,
}

impl View for ListingStore {
    type V = Map<(AccountId, TokenId), Item>;

    closed spec fn view(&self) -> Map<(AccountId, TokenId), Item> {
        Map::new(
            |k: (AccountId, TokenId)| self.has_key(k),
            |k: (AccountId, TokenId)| self.val_at(self.index_for(k)),
        )
    }
}

impl ListingStore {
    spec fn len(self) -> int {
        self.entries@.len() as int
    }

    spec fn key_at(self, i: int) -> (AccountId, TokenId) {
        self.entries@[i].0
    }

    spec fn val_at(self, i: int) -> Item {
        self.entries@[i].1
    }

    spec fn has_key(self, k: (AccountId, TokenId)) -> bool {
        exists|i: int| 0 <= i < self.len() && self.key_at(i) == k
    }

    spec fn index_for(self, k: (AccountId, TokenId)) -> int {
        choose|i: int| 0 <= i < self.len() && self.key_at(i) == k
    }

    /// The entries hold pairwise distinct keys.
    pub closed spec fn wf(self) -> bool {
        forall|i: int, j: int| 0 <= i < j < self.len() ==> self.key_at(i) != self.key_at(j)
    }

    /// The entry at index `i` is what the map view returns for its key.
    proof fn lemma_at(self, i: int)
        requires
            self.wf(),
            0 <= i < self.len(),
        ensures
            self@.contains_key(self.key_at(i)),
            self@[self.key_at(i)] == self.val_at(i),
    {
        assert(self.has_key(self.key_at(i)));
        let j = self.index_for(self.key_at(i));
        assert(0 <= j < self.len() && self.key_at(j) == self.key_at(i));
        if i < j {
            assert(self.key_at(i) != self.key_at(j));
        } else if j < i {
            assert(self.key_at(j) != self.key_at(i));
        }
        assert(j == i);
    }

    pub fn new() -> (r: Self)
        ensures
            r.wf(),
            r@ == Map::<(AccountId, TokenId), Item>::empty(),
    {
        let r = ListingStore { entries: Vec::new() };
        proof {
            assert(r@ =~= Map::<(AccountId, TokenId), Item>::empty());
        }
        r
    }

    fn index_of(&self, c: AccountId, t: TokenId) -> (r: Option<usize>)
        ensures
            match r {
                Some(i) => 0 <= i < self.len() && self.key_at(i as int) == (c, t),
                None => !self.has_key((c, t)),
            },
    {
        let mut i: usize = 0;
        while i < self.entries.len()
            invariant
                i <= self.entries@.len(),
                forall|j: int| 0 <= j < i ==> self.key_at(j) != (c, t),
            decreases self.entries@.len() - i,
        {
            if self.entries[i].0.0 == c && self.entries[i].0.1 == t {
                return Some(i);
            }
            i = i + 1;
        }
        None
    }

    pub fn contains(&self, c: AccountId, t: TokenId) -> (r: bool)
        ensures
            r == self@.contains_key((c, t)),
    {
        self.index_of(c, t).is_some()
    }

    pub fn get(&self, c: AccountId, t: TokenId) -> (r: Option<Item>)
        requires
            self.wf(),
        ensures
            match r {
                Some(v) => self@.contains_key((c, t)) && v == self@[(c, t)],
                None => !self@.contains_key((c, t)),
            },
    {
        match self.index_of(c, t) {
            Some(i) => {
                proof {
                    self.lemma_at(i as int);
                }
                Some(self.entries[i].1)
            },
            None => None,
        }
    }

    /// Inserts or overwrites the value under `(c, t)`.
    pub fn put(&mut self, c: AccountId, t: TokenId, v: Item)
        requires
            old(self).wf(),
        ensures
            final(self).wf(),
            final(self)@ == old(self)@.insert((c, t), v),
    {
        let ghost pre = *old(self);
        let ghost k = (c, t);
        match self.index_of(c, t) {
            Some(i) => {
                self.entries.set(i, ((c, t), v));
                proof {
                    assert forall|j: int| 0 <= j < self.len() implies #[trigger] self.key_at(j)
                        == pre.key_at(j) by {}
                    assert forall|k2: (AccountId, TokenId)|
                        self@.contains_key(k2) == pre@.insert(k, v).contains_key(k2) by {
                        if k2 == k {
                            assert(self.key_at(i as int) == k2);
                            assert(self.has_key(k2));
                        } else {
                            assert(self.has_key(k2) == pre.has_key(k2)) by {
                                if self.has_key(k2) {
                                    let j = self.index_for(k2);
                                    assert(0 <= j < self.len() && self.key_at(j) == k2);
                                    assert(pre.key_at(j) == k2);
                                }
                                if pre.has_key(k2) {
                                    let j = pre.index_for(k2);
                                    assert(0 <= j < pre.len() && pre.key_at(j) == k2);
                                    assert(self.key_at(j) == k2);
                                }
                            }
                        }
                    }
                    assert forall|k2: (AccountId, TokenId)| self@.contains_key(k2) implies self@[k2]
                        == pre@.insert(k, v)[k2] by {
                        let j = self.index_for(k2);
                        assert(0 <= j < self.len() && self.key_at(j) == k2);
                        self.lemma_at(j);
                        if k2 == k {
                            if j < i as int {
                                assert(self.key_at(j) != self.key_at(i as int));
                            } else if (i as int) < j {
                                assert(self.key_at(i as int) != self.key_at(j));
                            }
                            assert(j == i as int);
                        } else {
                            assert(pre.key_at(j) == k2);
                            pre.lemma_at(j);
                        }
                    }
                    assert(self@ =~= pre@.insert(k, v));
                }
            },
            None => {
                self.entries.push(((c, t), v));
                proof {
                    let n = pre.len();
                    assert(self.len() == n + 1);
                    assert forall|j: int| 0 <= j < n implies #[trigger] self.key_at(j)
                        == pre.key_at(j) by {}
                    assert(self.key_at(n) == k);
                    assert(self.wf()) by {
                        assert forall|i2: int, j2: int|
                            0 <= i2 < j2 < self.len() implies self.key_at(i2) != self.key_at(
                            j2,
                        ) by {
                            if j2 == n {
                                assert(pre.key_at(i2) != k) by {
                                    assert(!pre.has_key(k));
                                }
                            }
                        }
                    }
                    assert forall|k2: (AccountId, TokenId)|
                        self@.contains_key(k2) == pre@.insert(k, v).contains_key(k2) by {
                        if k2 == k {
                            assert(self.has_key(k2));
                        } else {
                            assert(self.has_key(k2) == pre.has_key(k2)) by {
                                if self.has_key(k2) {
                                    let j = self.index_for(k2);
                                    assert(0 <= j < self.len() && self.key_at(j) == k2);
                                    assert(j != n);
                                    assert(pre.key_at(j) == k2);
                                }
                                if pre.has_key(k2) {
                                    let j = pre.index_for(k2);
                                    assert(0 <= j < n && pre.key_at(j) == k2);
                                    assert(self.key_at(j) == k2);
                                }
                            }
                        }
                    }
                    assert forall|k2: (AccountId, TokenId)| self@.contains_key(k2) implies self@[k2]
                        == pre@.insert(k, v)[k2] by {
                        let j = self.index_for(k2);
                        assert(0 <= j < self.len() && self.key_at(j) == k2);
                        self.lemma_at(j);
                        if k2 == k {
                            assert(j == n) by {
                                if j < n {
                                    assert(pre.key_at(j) == k);
                                    assert(!pre.has_key(k));
                                }
                            }
                        } else {
                            assert(j != n);
                            assert(pre.key_at(j) == k2);
                            pre.lemma_at(j);
                        }
                    }
                    assert(self@ =~= pre@.insert(k, v));
                }
            },
        }
    }

    /// Removes the entry under `(c, t)`, if any.
    pub fn remove(&mut self, c: AccountId, t: TokenId)
        requires
            old(self).wf(),
        ensures
            final(self).wf(),
            final(self)@ == old(self)@.remove((c, t)),
    {
        let ghost pre = *old(self);
        let ghost k = (c, t);
        match self.index_of(c, t) {
            Some(i) => {
                self.entries.remove(i);
                proof {
                    let n = pre.len();
                    let ii = i as int;
                    assert(self.len() == n - 1);
                    assert forall|j: int| 0 <= j < self.len() implies #[trigger] self.key_at(j)
                        == (if j < ii {
                            pre.key_at(j)
                        } else {
                            pre.key_at(j + 1)
                        }) by {}
                    assert(self.wf()) by {
                        assert forall|i2: int, j2: int|
                            0 <= i2 < j2 < self.len() implies self.key_at(i2) != self.key_at(
                            j2,
                        ) by {}
                    }
                    assert forall|k2: (AccountId, TokenId)|
                        self@.contains_key(k2) == pre@.remove(k).contains_key(k2) by {
                        if k2 == k {
                            assert(!self.has_key(k2)) by {
                                if self.has_key(k2) {
                                    let j = self.index_for(k2);
                                    assert(0 <= j < self.len() && self.key_at(j) == k2);
                                    if j < ii {
                                        assert(pre.key_at(j) == k && pre.key_at(ii) == k);
                                    } else {
                                        assert(pre.key_at(j + 1) == k && pre.key_at(ii) == k);
                                    }
                                }
                            }
                        } else {
                            assert(self.has_key(k2) == pre.has_key(k2)) by {
                                if self.has_key(k2) {
                                    let j = self.index_for(k2);
                                    assert(0 <= j < self.len() && self.key_at(j) == k2);
                                    if j < ii {
                                        assert(pre.key_at(j) == k2);
                                    } else {
                                        assert(pre.key_at(j + 1) == k2);
                                    }
                                }
                                if pre.has_key(k2) {
                                    let j = pre.index_for(k2);
                                    assert(0 <= j < n && pre.key_at(j) == k2);
                                    assert(j != ii);
                                    if j < ii {
                                        assert(self.key_at(j) == k2);
                                    } else {
                                        assert(self.key_at(j - 1) == k2);
                                    }
                                }
                            }
                        }
                    }
                    assert forall|k2: (AccountId, TokenId)| self@.contains_key(k2) implies self@[k2]
                        == pre@.remove(k)[k2] by {
                        let j = self.index_for(k2);
                        assert(0 <= j < self.len() && self.key_at(j) == k2);
                        self.lemma_at(j);
                        if j < ii {
                            assert(pre.key_at(j) == k2);
                            pre.lemma_at(j);
                        } else {
                            assert(pre.key_at(j + 1) == k2);
                            pre.lemma_at(j + 1);
                        }
                    }
                    assert(self@ =~= pre@.remove(k));
                }
            },
            None => {
                proof {
                    assert(self@ =~= pre@.remove(k));
                }
            },
        }
    }
}

} // verus!
