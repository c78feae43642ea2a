//! A keyed table over a vector of entries.
//!
//! The first entry under a key is the one that counts, so any vector of entries
//! stands for one map and no invariant has to be carried along.

use crate::text::same;
use vstd::prelude::*;

verus! {

/// A key whose equality is that of its view.
pub trait Key: View + Sized {
    fn same_key(&self, other: &Self) -> (r: bool)
        ensures
            r == (self@ == other@),
    ;
}

impl Key for String {
    fn same_key(&self, other: &Self) -> (r: bool) {
        same(self.as_str(), other.as_str())
    }
}

/// The value of the first entry under `key`.
pub open spec fn lookup<K: View, V>(entries: Seq<(K, V)>, key: K::V) -> Option<V>
    decreases entries.len(),
{
    if entries.len() == 0 {
        None
    } else if entries[0].0@ == key {
        Some(entries[0].1)
    } else {
        lookup(entries.drop_first(), key)
    }
}

/// `lookup` is settled by the first index that holds the key.
pub proof fn lookup_first<K: View, V>(entries: Seq<(K, V)>, key: K::V, i: int)
    requires
        0 <= i < entries.len(),
        entries[i].0@ == key,
        forall|j: int| 0 <= j < i ==> (#[trigger] entries[j]).0@ != key,
    ensures
        lookup(entries, key) == Some(entries[i].1),
    decreases entries.len(),
{
    if i > 0 {
        let rest = entries.drop_first();
        assert forall|j: int| 0 <= j < i - 1 implies (#[trigger] rest[j]).0@ != key by {
            assert(rest[j] == entries[j + 1]);
        }
        lookup_first(rest, key, i - 1);
    }
}

/// Without an entry under the key there is nothing to look up.
pub proof fn lookup_absent<K: View, V>(entries: Seq<(K, V)>, key: K::V)
    requires
        forall|j: int| 0 <= j < entries.len() ==> (#[trigger] entries[j]).0@ != key,
    ensures
        lookup(entries, key) is None,
    decreases entries.len(),
{
    if entries.len() > 0 {
        let rest = entries.drop_first();
        assert forall|j: int| 0 <= j < rest.len() implies (#[trigger] rest[j]).0@ != key by {
            assert(rest[j] == entries[j + 1]);
        }
        lookup_absent(rest, key);
    }
}

/// Every entry's key can be looked up.
pub proof fn lookup_present<K: View, V>(entries: Seq<(K, V)>, i: int)
    requires
        0 <= i < entries.len(),
    ensures
        lookup(entries, entries[i].0@) is Some,
    decreases entries.len(),
{
    if i > 0 && entries[0].0@ != entries[i].0@ {
        assert(entries.drop_first()[i - 1] == entries[i]);
        lookup_present(entries.drop_first(), i - 1);
    }
}

/// A key that can be looked up stands in an entry.
pub proof fn lookup_index<K: View, V>(entries: Seq<(K, V)>, key: K::V) -> (i: int)
    requires
        lookup(entries, key) is Some,
    ensures
        0 <= i < entries.len(),
        entries[i].0@ == key,
        lookup(entries, key) == Some(entries[i].1),
    decreases entries.len(),
{
    if entries[0].0@ == key {
        0
    } else {
        let i = lookup_index(entries.drop_first(), key);
        assert(entries.drop_first()[i] == entries[i + 1]);
        i + 1
    }
}

/// Replacing the value of the first entry under a key changes that key alone.
pub proof fn lookup_update<K: View, V>(entries: Seq<(K, V)>, i: int, value: V, key: K::V)
    requires
        0 <= i < entries.len(),
        forall|j: int| 0 <= j < i ==> (#[trigger] entries[j]).0@ != entries[i].0@,
    ensures
        lookup(entries.update(i, (entries[i].0, value)), key) == if key == entries[i].0@ {
            Some(value)
        } else {
            lookup(entries, key)
        },
    decreases entries.len(),
{
    let next = entries.update(i, (entries[i].0, value));
    if i == 0 {
        assert(next.drop_first() =~= entries.drop_first());
    } else {
        let rest = entries.drop_first();
        assert(next.drop_first() =~= rest.update(i - 1, (rest[i - 1].0, value)));
        assert forall|j: int| 0 <= j < i - 1 implies (#[trigger] rest[j]).0@ != rest[i - 1].0@ by {
            assert(rest[j] == entries[j + 1]);
        }
        assert(entries[0].0@ != entries[i].0@);
        lookup_update(rest, i - 1, value, key);
    }
}

/// An entry added at the end counts where the key had none.
pub proof fn lookup_push<K: View, V>(entries: Seq<(K, V)>, entry: (K, V), key: K::V)
    ensures
        lookup(entries.push(entry), key) == if lookup(entries, key) is Some {
            lookup(entries, key)
        } else if entry.0@ == key {
            Some(entry.1)
        } else {
            None
        },
    decreases entries.len(),
{
    let next = entries.push(entry);
    if entries.len() == 0 {
        assert(next.drop_first() =~= Seq::<(K, V)>::empty());
        lookup_absent(next.drop_first(), key);
    } else {
        assert(next.drop_first() =~= entries.drop_first().push(entry));
        lookup_push(entries.drop_first(), entry, key);
    }
}

/// A table from keys to values.
pub struct Table<K, V> {
    entries: Vec<(K, V)>,
}

impl<K: View, V> View for Table<K, V> {
    type V = Map<K::V, V>;

    closed spec fn view(&self) -> Map<K::V, V> {
        Map::new(
            |k: K::V| lookup(self.entries@, k) is Some,
            |k: K::V| lookup(self.entries@, k)->0,
        )
    }
}

impl<K: Key, V> Table<K, V> {
    /// The entries in the order in which their keys came in.
    pub closed spec fn pairs(&self) -> Seq<(K, V)> {
        self.entries@
    }

    /// What the entries say of a key is what the table says of it.
    pub proof fn view_is_lookup(&self)
        ensures
            forall|k: K::V| #[trigger] self@.contains_key(k) <==> lookup(self.pairs(), k) is Some,
            forall|k: K::V| #[trigger]
                self@.contains_key(k) ==> self@[k] == lookup(self.pairs(), k)->0,
    {
    }

    /// The key of every entry is a key of the table.
    pub proof fn entry_counts(&self, i: int)
        requires
            0 <= i < self.pairs().len(),
        ensures
            self@.contains_key(self.pairs()[i].0@),
    {
        lookup_present(self.entries@, i);
    }

    /// Every key of the table stands in an entry.
    pub proof fn index_of(&self, key: K::V) -> (i: int)
        requires
            self@.contains_key(key),
        ensures
            0 <= i < self.pairs().len(),
            self.pairs()[i].0@ == key,
            self.pairs()[i].1 == self@[key],
    {
        lookup_index(self.entries@, key)
    }

    pub fn new() -> (r: Self)
        ensures
            r@ == Map::<K::V, V>::empty(),
            r.pairs().len() == 0,
    {
        let r = Table { entries: Vec::new() };
        assert(r@ =~= Map::<K::V, V>::empty());
        r
    }

    /// The index of the entry that counts for `key`.
    pub fn position(&self, key: &K) -> (r: Option<usize>)
        ensures
            match r {
                Some(i) => {
                    &&& i < self.pairs().len()
                    &&& self.pairs()[i as int].0@ == key@
                    &&& forall|j: int|
                        0 <= j < i ==> (#[trigger] self.pairs()[j]).0@ != key@
                    &&& self@.contains_key(key@)
                    &&& self@[key@] == self.pairs()[i as int].1
                },
                None => !self@.contains_key(key@),
            },
    {
        let mut i: usize = 0;
        while i < self.entries.len()
            invariant
                i <= self.entries.len(),
                forall|j: int| 0 <= j < i ==> (#[trigger] self.entries@[j]).0@ != key@,
            decreases self.entries.len() - i,
        {
            if self.entries[i].0.same_key(key) {
                proof {
                    lookup_first(self.entries@, key@, i as int);
                }
                return Some(i);
            }
            i = i + 1;
        }
        proof {
            lookup_absent(self.entries@, key@);
        }
        None
    }

    pub fn get(&self, key: &K) -> (r: Option<&V>)
        ensures
            match r {
                Some(v) => self@.contains_key(key@) && *v == self@[key@],
                None => !self@.contains_key(key@),
            },
    {
        match self.position(key) {
            Some(i) => Some(&self.entries[i].1),
            None => None,
        }
    }

    pub fn contains_key(&self, key: &K) -> (r: bool)
        ensures
            r == self@.contains_key(key@),
    {
        self.position(key).is_some()
    }

    pub fn insert(&mut self, key: K, value: V)
        ensures
            final(self)@ == old(self)@.insert(key@, value),
    {
        let ghost before = self.entries@;
        match self.position(&key) {
            Some(i) => {
                let ghost kept = self.entries@[i as int].0;
                self.entries[i].1 = value;
                proof {
                    assert(self.entries@ =~= before.update(i as int, (kept, value)));
                    assert forall|k: K::V| true implies #[trigger] lookup(self.entries@, k) == if k
                        == key@ {
                        Some(value)
                    } else {
                        lookup(before, k)
                    } by {
                        lookup_update(before, i as int, value, k);
                    }
                }
            },
            None => {
                proof {
                    assert forall|k: K::V| true implies #[trigger] lookup(
                        before.push((key, value)),
                        k,
                    ) == if k == key@ {
                        Some(value)
                    } else {
                        lookup(before, k)
                    } by {
                        lookup_push(before, (key, value), k);
                        assert(!old(self)@.contains_key(key@));
                    }
                }
                let ghost entry = (key, value);
                self.entries.push((key, value));
            },
        }
        assert(self@ =~= old(self)@.insert(key@, value));
    }

    /// The value at `i`, for changing it in place.
    pub fn value_mut(&mut self, i: usize) -> (r: &mut V)
        requires
            i < old(self).pairs().len(),
            forall|j: int|
                0 <= j < i ==> (#[trigger] old(self).pairs()[j]).0@ != old(
                    self,
                ).pairs()[i as int].0@,
        ensures
            *r == old(self).pairs()[i as int].1,
            *r == old(self)@[old(self).pairs()[i as int].0@],
            final(self)@ == old(self)@.insert(old(self).pairs()[i as int].0@, *final(r)),
    {
        let ghost before = self.entries@;
        proof {
            lookup_first(before, before[i as int].0@, i as int);
            assert forall|v: V, k: K::V| true implies #[trigger] lookup(
                before.update(i as int, (before[i as int].0, v)),
                k,
            ) == if k == before[i as int].0@ {
                Some(v)
            } else {
                lookup(before, k)
            } by {
                lookup_update(before, i as int, v, k);
            }
        }
        &mut self.entries[i].1
    }

    pub fn len(&self) -> (r: usize)
        ensures
            r == self.pairs().len(),
    {
        self.entries.len()
    }

    /// The key of the entry at `i`.
    pub fn key_at(&self, i: usize) -> (r: &K)
        requires
            i < self.pairs().len(),
        ensures
            *r == self.pairs()[i as int].0,
    {
        &self.entries[i].0
    }

    /// The value of the entry at `i`.
    pub fn value_at(&self, i: usize) -> (r: &V)
        requires
            i < self.pairs().len(),
        ensures
            *r == self.pairs()[i as int].1,
    {
        &self.entries[i].1
    }
}

/// A value that can be copied and compared, by its view.
pub trait Plain: View + Sized {
    fn copied(&self) -> (r: Self)
        ensures
            r@ == self@,
    ;

    fn same_as(&self, other: &Self) -> (r: bool)
        ensures
            r == (self@ == other@),
    ;
}

impl Plain for String {
    fn copied(&self) -> (r: Self) {
        self.clone()
    }

    fn same_as(&self, other: &Self) -> (r: bool) {
        same(self.as_str(), other.as_str())
    }
}

/// A table with its values by their views.
pub open spec fn deep<K, V: View>(t: Map<K, V>) -> Map<K, V::V> {
    t.map_values(|v: V| v@)
}

impl<K: Key + Plain, V: Plain> Table<K, V> {
    /// A table that says the same.
    pub fn copied(&self) -> (r: Self)
        ensures
            deep(r@) == deep(self@),
    {
        let mut r: Table<K, V> = Table::new();
        let mut i: usize = 0;
        while i < self.len()
            invariant
                i <= self.pairs().len(),
                forall|k: K::V| #[trigger]
                    r@.contains_key(k) ==> self@.contains_key(k) && r@[k]@ == self@[k]@,
                forall|j: int|
                    #![trigger self.pairs()[j]]
                    0 <= j < i ==> r@.contains_key(self.pairs()[j].0@),
            decreases self.pairs().len() - i,
        {
            let key = self.key_at(i);
            proof {
                self.entry_counts(i as int);
            }
            if let Some(v) = self.get(key) {
                r.insert(key.copied(), v.copied());
            }
            i = i + 1;
        }
        assert(deep(r@) =~= deep(self@)) by {
            assert forall|k: K::V| self@.contains_key(k) implies r@.contains_key(k) by {
                let j = self.index_of(k);
                assert(self.pairs()[j].0@ == k);
            }
        }
        r
    }

    /// Every key of this table is a key of the other, with the same value.
    fn within(&self, other: &Self) -> (r: bool)
        ensures
            r == (forall|k: K::V| #[trigger]
                self@.contains_key(k) ==> other@.contains_key(k) && other@[k]@ == self@[k]@),
    {
        let mut i: usize = 0;
        while i < self.len()
            invariant
                i <= self.pairs().len(),
                forall|j: int|
                    #![trigger self.pairs()[j]]
                    0 <= j < i ==> other@.contains_key(self.pairs()[j].0@)
                        && other@[self.pairs()[j].0@]@ == self@[self.pairs()[j].0@]@,
            decreases self.pairs().len() - i,
        {
            let key = self.key_at(i);
            proof {
                self.entry_counts(i as int);
            }
            let ghost k = key@;
            let kept = match (self.get(key), other.get(key)) {
                (Some(a), Some(b)) => b.same_as(a),
                _ => false,
            };
            if !kept {
                assert(self@.contains_key(k));
                return false;
            }
            i = i + 1;
        }
        assert forall|k: K::V| #[trigger] self@.contains_key(k) implies other@.contains_key(k)
            && other@[k]@ == self@[k]@ by {
            let j = self.index_of(k);
            assert(self.pairs()[j].0@ == k);
        }
        true
    }

    pub fn same_as(&self, other: &Self) -> (r: bool)
        ensures
            r == (deep(self@) == deep(other@)),
    {
        let r = self.within(other) && other.within(self);
        proof {
            if r {
                assert(deep(self@) =~= deep(other@));
            } else if deep(self@) == deep(other@) {
                assert forall|k: K::V| #[trigger] self@.contains_key(
                    k,
                ) implies other@.contains_key(k)
                    && other@[k]@ == self@[k]@ by {
                    assert(deep(self@).contains_key(k));
                    assert(deep(self@)[k] == deep(other@)[k]);
                }
                assert forall|k: K::V| #[trigger] other@.contains_key(
                    k,
                ) implies self@.contains_key(k)
                    && self@[k]@ == other@[k]@ by {
                    assert(deep(other@).contains_key(k));
                    assert(deep(self@)[k] == deep(other@)[k]);
                }
            }
        }
        r
    }
}

} // verus!
