use vstd::prelude::*;

use crate::key::Key;
use crate::types::{links_copied, same_link, ReferrerLink};

verus! {

/// A key of a `Dict`: comparable by its view, and copyable.
pub trait DictKey: View + Sized {
    fn same_key(&self, other: &Self) -> (r: bool)
        ensures
            r == (self@ == other@);

    fn copy_key(&self) -> (r: Self)
        ensures
            r@ == self@;
}

impl DictKey for u64 {
    fn same_key(&self, other: &Self) -> (r: bool) {
        *self == *other
    }

    fn copy_key(&self) -> (r: Self) {
        *self
    }
}

impl DictKey for Key {
    fn same_key(&self, other: &Self) -> (r: bool) {
        self.same(other)
    }

    fn copy_key(&self) -> (r: Self) {
        *self
    }
}

/// The key of a record that belongs to an address under an id: a stake, a
/// referral link or a liquidity stake.
#[derive(Debug)]
pub struct RecordKey {
    pub owner: Key,
    pub id: Vec<u32>,
}

impl View for RecordKey {
    type V = (Key, Seq<u32>);

    open spec fn view(&self) -> (Key, Seq<u32>) {
        (self.owner, self.id@)
    }
}

/// Whether two id vectors hold the same numbers.
pub fn same_id(a: &Vec<u32>, b: &Vec<u32>) -> (r: bool)
    ensures
        r == (a@ == b@),
{
    if a.len() != b.len() {
        return false;
    }
    let mut i: usize = 0;
    while i < a.len()
        invariant
            a.len() == b.len(),
            0 <= i <= a.len(),
            forall|j: int| 0 <= j < i ==> a@[j] == b@[j],
        decreases a.len() - i,
    {
        if a[i] != b[i] {
            return false;
        }
        i = i + 1;
    }
    assert(a@ =~= b@);
    true
}

/// A copy of an id vector.
pub fn copy_id(a: &Vec<u32>) -> (r: Vec<u32>)
    ensures
        r@ == a@,
{
    let mut r: Vec<u32> = Vec::new();
    let mut i: usize = 0;
    while i < a.len()
        invariant
            0 <= i <= a.len(),
            r@ == a@.subrange(0, i as int),
        decreases a.len() - i,
    {
        r.push(a[i]);
        i = i + 1;
        assert(r@ =~= a@.subrange(0, i as int));
    }
    assert(a@.subrange(0, a.len() as int) =~= a@);
    r
}

impl DictKey for RecordKey {
    fn same_key(&self, other: &Self) -> (r: bool) {
        self.owner.same(&other.owner) && same_id(&self.id, &other.id)
    }

    fn copy_key(&self) -> (r: Self) {
        RecordKey { owner: self.owner, id: copy_id(&self.id) }
    }
}

impl RecordKey {
    pub fn new(owner: Key, id: &Vec<u32>) -> (r: RecordKey)
        ensures
            r@ == (owner, id@),
    {
        RecordKey { owner, id: copy_id(id) }
    }
}

/// A dictionary of the contract's storage: each key at most once.
pub struct Dict<K: DictKey, V> {
    entries: Vec<(K, V)>,
}

impl<K: DictKey, V> View for Dict<K, V> {
    type V = Map<K::V, V>;

    closed spec fn view(&self) -> Map<K::V, V> {
        Map::new(|k: K::V| self.has(k), |k: K::V| self.at(k))
    }
}

impl<K: DictKey, V> Dict<K, V> {
    #[verifier::type_invariant]
    spec fn keys_distinct(self) -> bool {
        forall|i: int, j: int|
            0 <= i < self.entries.len() && 0 <= j < self.entries.len() && i != j
                ==> self.entries@[i].0@ != self.entries@[j].0@
    }

    /// The index of the entry under a key, if any.
    closed spec fn index_of(self, k: K::V) -> int {
        choose|i: int| 0 <= i < self.entries.len() && self.entries@[i].0@ == k
    }

    /// The keys present.
    closed spec fn has(self, k: K::V) -> bool {
        exists|i: int| 0 <= i < self.entries.len() && self.entries@[i].0@ == k
    }

    /// The value under a present key.
    closed spec fn at(self, k: K::V) -> V {
        self.entries@[self.index_of(k)].1
    }


    /// An empty dictionary.
    pub fn new() -> (r: Self)
        ensures
            r@ == Map::<K::V, V>::empty(),
    {
        let r = Dict { entries: Vec::new() };
        assert(r@ =~= Map::<K::V, V>::empty());
        r
    }

    fn find(&self, k: &K) -> (r: Option<usize>)
        ensures
            r matches Some(i) ==> i < self.entries.len() && self.entries@[i as int].0@ == k@,
            r is None ==> !self.has(k@),
    {
        let mut i: usize = 0;
        while i < self.entries.len()
            invariant
                0 <= i <= self.entries.len(),
                forall|j: int| 0 <= j < i ==> self.entries@[j].0@ != k@,
            decreases self.entries.len() - i,
        {
            if self.entries[i].0.same_key(k) {
                return Some(i);
            }
            i = i + 1;
        }
        None
    }

    proof fn lemma_at_index(&self, i: int)
        requires
            0 <= i < self.entries.len(),
            self.keys_distinct(),
        ensures
            self.has(self.entries@[i].0@),
            self.index_of(self.entries@[i].0@) == i,
            self.at(self.entries@[i].0@) == self.entries@[i].1,
    {
        let k = self.entries@[i].0@;
        assert(self.has(k));
        let c = self.index_of(k);
        assert(0 <= c < self.entries.len() && self.entries@[c].0@ == k);
    }

    /// Whether a key is present.
    pub fn contains(&self, k: &K) -> (r: bool)
        ensures
            r == self@.contains_key(k@),
    {
        match self.find(k) {
            Some(i) => {
                proof {
                    use_type_invariant(self);
                    self.lemma_at_index(i as int);
                }
                true
            },
            None => false,
        }
    }

    /// The value under a key, if present.
    pub fn get(&self, k: &K) -> (r: Option<&V>)
        ensures
            r is Some <==> self@.contains_key(k@),
            r matches Some(v) ==> *v == self@[k@],
    {
        match self.find(k) {
            Some(i) => {
                proof {
                    use_type_invariant(self);
                    self.lemma_at_index(i as int);
                }
                Some(&self.entries[i].1)
            },
            None => None,
        }
    }

    /// Stores a value under a key, replacing what was there.
    pub fn set(&mut self, k: K, v: V)
        ensures
            final(self)@ == old(self)@.insert(k@, v),
    {
        proof {
            use_type_invariant(&*self);
        }
        let ghost old_self = *self;
        let found = self.find(&k);
        let mut es: Vec<(K, V)> = Vec::new();
        std::mem::swap(&mut es, &mut self.entries);
        match found {
            Some(i) => {
                let ghost kv = k@;
                es.set(i, (k, v));
                proof {
                    assert(es@[i as int].0@ == kv);
                    assert(forall|j: int| 0 <= j < es.len() && j != i ==> es@[j] == old_self.entries@[j]);
                }
                self.entries = es;
                proof {
                    assert(self.keys_distinct());
                    self.lemma_at_index(i as int);
                    assert forall|o: K::V| o != kv implies (self.has(o) == old_self.has(o)) by {
                        if old_self.has(o) {
                            let j = old_self.index_of(o);
                            assert(self.entries@[j].0@ == o);
                        }
                        if self.has(o) {
                            let j = self.index_of(o);
                            assert(old_self.entries@[j].0@ == o);
                        }
                    }
                    assert forall|o: K::V| o != kv && old_self.has(o) implies self.at(o)
                        == old_self.at(o) by {
                        let j = old_self.index_of(o);
                        old_self.lemma_at_index(j);
                        self.lemma_at_index(j);
                    }
                    assert(self@ =~= old_self@.insert(kv, self.at(kv)));
                }
            },
            None => {
                let ghost kv = k@;
                es.push((k, v));
                proof {
                    assert(es@[es.len() - 1].0@ == kv);
                    assert(forall|j: int| 0 <= j < es.len() - 1 ==> es@[j] == old_self.entries@[j]);
                }
                self.entries = es;
                proof {
                    let n = self.entries.len() - 1;
                    assert(self.entries@[n].0@ == kv);
                    assert(self.keys_distinct());
                    self.lemma_at_index(n);
                    assert forall|o: K::V| o != kv implies (self.has(o) == old_self.has(o)) by {
                        if old_self.has(o) {
                            let j = old_self.index_of(o);
                            assert(self.entries@[j].0@ == o);
                        }
                        if self.has(o) {
                            let j = self.index_of(o);
                            assert(j != n);
                            assert(old_self.entries@[j].0@ == o);
                        }
                    }
                    assert forall|o: K::V| o != kv && old_self.has(o) implies self.at(o)
                        == old_self.at(o) by {
                        let j = old_self.index_of(o);
                        old_self.lemma_at_index(j);
                        self.lemma_at_index(j);
                    }
                    assert(self@ =~= old_self@.insert(kv, self.at(kv)));
                }
            },
        }
    }
}

impl<K: DictKey, V: Copy> Dict<K, V> {
    /// A copy of the dictionary, holding the same values under the same keys.
    pub fn duplicate(&self) -> (r: Self)
        ensures
            r@ == self@,
    {
        proof {
            use_type_invariant(self);
        }
        let mut es: Vec<(K, V)> = Vec::new();
        let mut i: usize = 0;
        while i < self.entries.len()
            invariant
                0 <= i <= self.entries.len(),
                es.len() == i,
                forall|j: int| 0 <= j < i ==> (#[trigger] es@[j]).0@ == self.entries@[j].0@ && es@[j].1 == self.entries@[j].1,
            decreases self.entries.len() - i,
        {
            let k = self.entries[i].0.copy_key();
            let v = self.entries[i].1;
            es.push((k, v));
            i = i + 1;
        }
        proof {
            assert forall|a: int, b: int|
                0 <= a < es.len() && 0 <= b < es.len() && a != b implies es@[a].0@ != es@[b].0@ by {
                assert(es@[a].0@ == self.entries@[a].0@);
                assert(es@[b].0@ == self.entries@[b].0@);
            }
        }
        let r = Dict { entries: es };
        proof {
            assert forall|k: K::V| r.has(k) == self.has(k) by {
                if r.has(k) {
                    let j = r.index_of(k);
                    assert(self.entries@[j].0@ == k);
                }
                if self.has(k) {
                    let j = self.index_of(k);
                    assert(r.entries@[j].0@ == k);
                }
            }
            assert forall|k: K::V| self.has(k) implies r.at(k) == self.at(k) by {
                let j = self.index_of(k);
                self.lemma_at_index(j);
                assert(r.entries@[j].0@ == k);
                r.lemma_at_index(j);
            }
            assert(r@ =~= self@);
        }
        r
    }
}

impl Dict<RecordKey, ReferrerLink> {
    /// A copy of a book of referral links, each link copied field by field.
    pub fn duplicate_links(&self) -> (r: Self)
        ensures
            links_copied(self@, r@),
    {
        proof {
            use_type_invariant(self);
        }
        let mut es: Vec<(RecordKey, ReferrerLink)> = Vec::new();
        let mut i: usize = 0;
        while i < self.entries.len()
            invariant
                0 <= i <= self.entries.len(),
                es.len() == i,
                forall|j: int| 0 <= j < i ==> (#[trigger] es@[j]).0@ == self.entries@[j].0@ && same_link(self.entries@[j].1, es@[j].1),
            decreases self.entries.len() - i,
        {
            let k = self.entries[i].0.copy_key();
            let l = &self.entries[i].1;
            let v = ReferrerLink {
                staker: l.staker,
                stake_id: copy_id(&l.stake_id),
                reward_amount: l.reward_amount,
                processed_days: l.processed_days,
                is_active: l.is_active,
            };
            es.push((k, v));
            i = i + 1;
        }
        proof {
            assert forall|a: int, b: int|
                0 <= a < es.len() && 0 <= b < es.len() && a != b implies es@[a].0@ != es@[b].0@ by {
                assert(es@[a].0@ == self.entries@[a].0@);
                assert(es@[b].0@ == self.entries@[b].0@);
            }
        }
        let r = Dict { entries: es };
        proof {
            assert forall|k: (Key, Seq<u32>)| r.has(k) == self.has(k) by {
                if r.has(k) {
                    let j = r.index_of(k);
                    assert(self.entries@[j].0@ == k);
                }
                if self.has(k) {
                    let j = self.index_of(k);
                    assert(r.entries@[j].0@ == k);
                }
            }
            assert(self@.dom() =~= r@.dom());
            assert forall|k: (Key, Seq<u32>)| #[trigger] self@.contains_key(k) implies same_link(self@[k], r@[k]) by {
                let j = self.index_of(k);
                self.lemma_at_index(j);
                assert(r.entries@[j].0@ == k);
                r.lemma_at_index(j);
            }
        }
        r
    }
}

} // verus!
