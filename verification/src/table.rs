//! A map from addresses to records, kept as a list in which no address occurs
//! twice.

use vstd::prelude::*;
use crate::address::Address;

verus! {

/// A record that can be copied with its view kept.
pub trait Record: View + Sized {
    /// A copy with the same view.
    fn duplicate(&self) -> (r: Self)
        ensures
            r@ == self@,
    ;
}

impl Record for u64 {
    fn duplicate(&self) -> (r: u64) {
        *self
    }
}

/// The records of a ledger, by address. Its view is the map from each address
/// that has a record to the view of that record.
pub struct Table<V> {
    entries: Vec<(Address, V)>,
}

/// Whether some entry of `s` has the key `k`.
pub closed spec fn has_key<V>(s: Seq<(Address, V)>, k: Address) -> bool {
    exists|i: int| 0 <= i < s.len() && (#[trigger] s[i]).0 == k
}

/// The place of an entry of `s` with the key `k`.
pub closed spec fn place_of<V>(s: Seq<(Address, V)>, k: Address) -> int {
    choose|i: int| 0 <= i < s.len() && (#[trigger] s[i]).0 == k
}

/// No key occurs twice in `s`.
pub closed spec fn distinct_keys<V>(s: Seq<(Address, V)>) -> bool {
    forall|i: int, j: int| 0 <= i < j < s.len() ==> (#[trigger] s[i]).0 != (#[trigger] s[j]).0
}

impl<V: View> View for Table<V> {
    type V = Map<Address, V::V>;

    closed spec fn view(&self) -> Map<Address, V::V> {
        Map::new(
            |k: Address| has_key(self.entries@, k),
            |k: Address| self.entries@[place_of(self.entries@, k)].1@,
        )
    }
}

impl<V> Table<V> {
    #[verifier::type_invariant]
    closed spec fn well_formed(self) -> bool {
        distinct_keys(self.entries@)
    }
}

impl<V: View> Table<V> {
    /// The empty table.
    pub fn new() -> (t: Table<V>)
        ensures
            t@ == Map::<Address, V::V>::empty(),
    {
        let t = Table { entries: Vec::new() };
        assert(t@ =~= Map::<Address, V::V>::empty());
        t
    }

    /// The place of the entry for `key`, if there is one.
    fn find(&self, key: &Address) -> (r: Option<usize>)
        ensures
            match r {
                Some(i) => i < self.entries@.len() && self.entries@[i as int].0 == *key,
                None => !has_key(self.entries@, *key),
            },
    {
        let mut i: usize = 0;
        while i < self.entries.len()
            invariant
                i <= self.entries@.len(),
                forall|j: int| 0 <= j < i ==> (#[trigger] self.entries@[j]).0 != *key,
            decreases self.entries@.len() - i,
        {
            if self.entries[i].0.same(key) {
                return Some(i);
            }
            i += 1;
        }
        None
    }

    /// Whether `key` has a record.
    pub fn contains_key(&self, key: &Address) -> (b: bool)
        ensures
            b == self@.contains_key(*key),
    {
        self.find(key).is_some()
    }

    /// The record of `key`, if it has one.
    pub fn get(&self, key: &Address) -> (r: Option<&V>)
        ensures
            match r {
                Some(v) => self@.contains_key(*key) && self@[*key] == v@,
                None => !self@.contains_key(*key),
            },
    {
        proof {
            use_type_invariant(self);
        }
        match self.find(key) {
            Some(i) => {
                assert(has_key(self.entries@, *key));
                Some(&self.entries[i].1)
            },
            None => None,
        }
    }

    /// The table with the record of `key` set, in place of the one it had, if any.
    pub fn insert(self, key: Address, value: V) -> (t: Table<V>)
        ensures
            t@ == self@.insert(key, value@),
    {
        proof {
            use_type_invariant(&self);
        }
        let ghost before = self.entries@;
        let found = self.find(&key);
        let mut entries = self.entries;
        match found {
            Some(i) => {
                entries.set(i, (key, value));
                proof {
                    let after = entries@;
                    assert forall|k: Address| has_key(after, k) == (k == key || has_key(before, k)) by {
                        if has_key(after, k) {
                            let j = place_of(after, k);
                            assert(before[j].0 == after[j].0);
                        }
                        if has_key(before, k) {
                            let j = place_of(before, k);
                            assert(after[j].0 == before[j].0);
                        }
                        if k == key {
                            assert(after[i as int].0 == key);
                        }
                    }
                    assert forall|k: Address| has_key(after, k) implies after[place_of(after, k)].1@
                        == (if k == key { value@ } else { before[place_of(before, k)].1@ }) by {
                        let j = place_of(after, k);
                        if k == key {
                            assert(after[i as int].0 == key);
                            assert(j == i);
                        } else {
                            assert(before[j].0 == k);
                            assert(has_key(before, k));
                            let j2 = place_of(before, k);
                            assert(after[j2].0 == k);
                            assert(j == j2);
                        }
                    }
                    assert(distinct_keys(after)) by {
                        assert forall|a: int, b: int| 0 <= a < b < after.len() implies (#[trigger] after[a]).0 != (#[trigger] after[b]).0 by {
                            assert(before[a].0 == after[a].0);
                            assert(before[b].0 == after[b].0);
                        }
                    }
                }
            },
            None => {
                entries.push((key, value));
                proof {
                    let after = entries@;
                    let n = before.len() as int;
                    assert forall|k: Address| has_key(after, k) == (k == key || has_key(before, k)) by {
                        if has_key(after, k) {
                            let j = place_of(after, k);
                            if j < n {
                                assert(before[j].0 == k);
                            }
                        }
                        if has_key(before, k) {
                            let j = place_of(before, k);
                            assert(after[j].0 == k);
                        }
                        if k == key {
                            assert(after[n].0 == key);
                        }
                    }
                    assert(distinct_keys(after)) by {
                        assert forall|a: int, b: int| 0 <= a < b < after.len() implies (#[trigger] after[a]).0 != (#[trigger] after[b]).0 by {
                            assert(after[a] == before[a]);
                            if b < n {
                                assert(after[b] == before[b]);
                            } else {
                                assert(!has_key(before, key));
                            }
                        }
                    }
                    assert forall|k: Address| has_key(after, k) implies after[place_of(after, k)].1@
                        == (if k == key { value@ } else { before[place_of(before, k)].1@ }) by {
                        let j = place_of(after, k);
                        if k == key {
                            assert(after[n].0 == key);
                            assert(j == n);
                        } else {
                            assert(j < n);
                            assert(before[j].0 == k);
                            let j2 = place_of(before, k);
                            assert(after[j2].0 == k);
                            assert(j == j2);
                        }
                    }
                }
            },
        }
        let t = Table { entries };
        assert(t@ =~= self@.insert(key, value@));
        t
    }
}

impl<V: Record> Table<V> {
    /// A copy of the table with the same view.
    pub fn snapshot(&self) -> (t: Table<V>)
        ensures
            t@ == self@,
    {
        proof {
            use_type_invariant(self);
        }
        let mut entries: Vec<(Address, V)> = Vec::new();
        let mut i: usize = 0;
        while i < self.entries.len()
            invariant
                i <= self.entries@.len(),
                entries@.len() == i,
                forall|j: int| 0 <= j < i ==> (#[trigger] entries@[j]).0 == self.entries@[j].0,
                forall|j: int| 0 <= j < i ==> (#[trigger] entries@[j]).1@ == self.entries@[j].1@,
            decreases self.entries@.len() - i,
        {
            let key = self.entries[i].0;
            let value = self.entries[i].1.duplicate();
            entries.push((key, value));
            i += 1;
        }
        proof {
            let a = entries@;
            let b = self.entries@;
            assert(distinct_keys(a)) by {
                assert forall|x: int, y: int| 0 <= x < y < a.len() implies (#[trigger] a[x]).0 != (#[trigger] a[y]).0 by {
                    assert(a[x].0 == b[x].0);
                    assert(a[y].0 == b[y].0);
                }
            }
            assert forall|k: Address| has_key(a, k) == has_key(b, k) by {
                if has_key(a, k) {
                    let j = place_of(a, k);
                    assert(b[j].0 == k);
                }
                if has_key(b, k) {
                    let j = place_of(b, k);
                    assert(a[j].0 == k);
                }
            }
            assert forall|k: Address| has_key(a, k) implies a[place_of(a, k)].1@ == b[place_of(b, k)].1@ by {
                let j = place_of(a, k);
                assert(b[j].0 == k);
                let j2 = place_of(b, k);
                assert(a[j2].0 == k);
                assert(j == j2);
            }
        }
        let t = Table { entries };
        assert(t@ =~= self@);
        t
    }
}

} // verus!
