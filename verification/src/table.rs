//! A keyed table: at most one value for each key.
use vstd::prelude::*;

verus! {

/// A value that can be compared and copied by what it stands for.
pub trait Plain: View + Sized {
    /// Whether `self` and `other` stand for the same thing.
    fn same(&self, other: &Self) -> (same: bool)
        ensures
            same == (self@ == other@),
    ;

    /// A copy that stands for the same thing.
    fn duplicate(&self) -> (copy: Self)
        ensures
            copy@ == self@,
    ;
}

impl Plain for bool {
    fn same(&self, other: &bool) -> (same: bool) {
        *self == *other
    }

    fn duplicate(&self) -> (copy: bool) {
        *self
    }
}

impl Plain for u32 {
    fn same(&self, other: &u32) -> (same: bool) {
        *self == *other
    }

    fn duplicate(&self) -> (copy: u32) {
        *self
    }
}

/// The keys of `entries`, in order, each by what it stands for.
pub open spec fn key_views<K: Plain, V: Plain>(entries: Seq<(K, V)>) -> Seq<K::V> {
    Seq::new(entries.len(), |i: int| entries[i].0@)
}

/// The table that `entries` spell out: each key with the value beside it
/// (beside one of its occurrences, should a key occur more than once).
pub open spec fn as_map<K: Plain, V: Plain>(entries: Seq<(K, V)>) -> Map<K::V, V::V> {
    Map::new(
        |k: K::V| key_views(entries).contains(k),
        |k: K::V| entries[key_views(entries).index_of(k)].1@,
    )
}

/// What `as_map` holds for a key that stands at `i`, where no key occurs twice.
proof fn lemma_entry<K: Plain, V: Plain>(entries: Seq<(K, V)>, i: int)
    requires
        key_views(entries).no_duplicates(),
        0 <= i < entries.len(),
    ensures
        as_map(entries).contains_key(entries[i].0@),
        as_map(entries)[entries[i].0@] == entries[i].1@,
{
    let keys = key_views(entries);
    assert(keys[i] == entries[i].0@);
    let j = keys.index_of(entries[i].0@);
    assert(0 <= j < keys.len() && keys[j] == keys[i]);
}

/// At most one value for each key.  Its view is the map from what a key
/// stands for to what its value stands for.
#[derive(Debug)]
pub struct Table<K: Plain, V: Plain> {
    entries: Vec<(K, V)>,
}

impl<K: Plain, V: Plain> View for Table<K, V> {
    type V = Map<K::V, V::V>;

    closed spec fn view(&self) -> Map<K::V, V::V> {
        as_map(self.entries@)
    }
}

impl<K: Plain, V: Plain> Table<K, V> {
    #[verifier::type_invariant]
    spec fn distinct_keys(&self) -> bool {
        key_views(self.entries@).no_duplicates()
    }

    /// The table without entries.
    pub fn new() -> (table: Table<K, V>)
        ensures
            table@ == Map::<K::V, V::V>::empty(),
    {
        let table = Table { entries: Vec::new() };
        proof {
            assert(table@ =~= Map::<K::V, V::V>::empty());
        }
        table
    }

    /// Where `key` stands among the entries.
    fn position(&self, key: &K) -> (found: Option<usize>)
        ensures
            match found {
                Some(i) => i < self.entries@.len() && self.entries@[i as int].0@ == key@,
                None => !key_views(self.entries@).contains(key@),
            },
    {
        let mut i: usize = 0;
        while i < self.entries.len()
            invariant
                i <= self.entries@.len(),
                forall|j: int| 0 <= j < i ==> self.entries@[j].0@ != key@,
            decreases self.entries@.len() - i,
        {
            if self.entries[i].0.same(key) {
                return Some(i);
            }
            i += 1;
        }
        proof {
            let keys = key_views(self.entries@);
            assert forall|j: int| 0 <= j < keys.len() implies keys[j] != key@ by {
                assert(keys[j] == self.entries@[j].0@);
            }
        }
        None
    }

    /// The number of entries.
    pub fn len(&self) -> (n: usize)
        ensures
            self@.dom().finite(),
            n == self@.dom().len(),
    {
        proof {
            use_type_invariant(self);
            let keys = key_views(self.entries@);
            assert(self@.dom() =~= keys.to_set());
            keys.unique_seq_to_set();
        }
        self.entries.len()
    }

    /// Whether the table holds a value for `key`.
    pub fn contains_key(&self, key: &K) -> (held: bool)
        ensures
            held == self@.contains_key(key@),
    {
        match self.position(key) {
            Some(i) => {
                proof {
                    assert(key_views(self.entries@)[i as int] == key@);
                }
                true
            },
            None => false,
        }
    }

    /// A copy of the value held for `key`.
    pub fn get(&self, key: &K) -> (value: Option<V>)
        ensures
            match value {
                Some(v) => self@.contains_key(key@) && v@ == self@[key@],
                None => !self@.contains_key(key@),
            },
    {
        match self.position(key) {
            Some(i) => {
                proof {
                    use_type_invariant(self);
                    lemma_entry(self.entries@, i as int);
                }
                Some(self.entries[i].1.duplicate())
            },
            None => None,
        }
    }

    /// Holds `value` for `key` from now on, in place of any earlier value.
    pub fn set(&mut self, key: K, value: V)
        ensures
            final(self)@ == old(self)@.insert(key@, value@),
    {
        proof {
            use_type_invariant(&*self);
        }
        let ghost before = self.entries@;
        let found = self.position(&key);
        let mut entries: Vec<(K, V)> = Vec::new();
        core::mem::swap(&mut self.entries, &mut entries);
        match found {
            Some(i) => {
                entries.set(i, (key, value));
                proof {
                    let after = entries@;
                    assert(key_views(after) =~= key_views(before));
                    assert forall|k: K::V| #[trigger]
                        as_map(after).contains_key(k) implies as_map(after)[k] == as_map(
                        before,
                    ).insert(key@, value@)[k] by {
                        let j = key_views(after).index_of(k);
                        assert(key_views(after)[j] == k);
                        if j != i as int {
                            assert(key_views(before)[j] != key_views(before)[i as int]);
                        }
                    }
                    lemma_entry(before, i as int);
                    assert(as_map(after) =~= as_map(before).insert(key@, value@));
                }
            },
            None => {
                entries.push((key, value));
                proof {
                    let after = entries@;
                    assert(key_views(after) =~= key_views(before).push(key@));
                    assert forall|k: K::V| #[trigger]
                        as_map(after).contains_key(k) implies as_map(after)[k] == as_map(
                        before,
                    ).insert(key@, value@)[k] by {
                        let j = key_views(after).index_of(k);
                        assert(key_views(after)[j] == k);
                        if k != key@ {
                            assert(j < before.len());
                            let j0 = key_views(before).index_of(k);
                            assert(key_views(before)[j] == k);
                            assert(key_views(after)[j0] == k);
                            assert(j0 == j);
                        }
                    }
                    assert forall|k: K::V| #[trigger]
                        as_map(before).insert(key@, value@).contains_key(k) implies as_map(
                        after,
                    ).contains_key(k) by {
                        if k == key@ {
                            assert(key_views(after)[before.len() as int] == k);
                        } else {
                            let j = key_views(before).index_of(k);
                            assert(key_views(after)[j] == k);
                        }
                    }
                    assert(as_map(after) =~= as_map(before).insert(key@, value@));
                }
            },
        }
        self.entries = entries;
    }

    /// Drops the entry of `key`, and hands out the value it held.
    pub fn remove(&mut self, key: &K) -> (value: Option<V>)
        ensures
            final(self)@ == old(self)@.remove(key@),
            match value {
                Some(v) => old(self)@.contains_key(key@) && v@ == old(self)@[key@],
                None => !old(self)@.contains_key(key@),
            },
    {
        proof {
            use_type_invariant(&*self);
        }
        let ghost before = self.entries@;
        match self.position(key) {
            Some(i) => {
                proof {
                    lemma_entry(before, i as int);
                }
                let mut entries: Vec<(K, V)> = Vec::new();
                core::mem::swap(&mut self.entries, &mut entries);
                let entry = entries.remove(i);
                proof {
                    let after = entries@;
                    assert(key_views(after) =~= key_views(before).remove(i as int));
                    assert forall|k: K::V| #[trigger]
                        as_map(after).contains_key(k) implies as_map(before).remove(
                        key@,
                    ).contains_key(k) && as_map(after)[k] == as_map(before)[k] by {
                        let j = key_views(after).index_of(k);
                        assert(key_views(after)[j] == k);
                        let j1 = if j < i as int {
                            j
                        } else {
                            j + 1
                        };
                        assert(key_views(before)[j1] == k);
                        assert(key_views(before)[j1] != key_views(before)[i as int]);
                        lemma_entry(before, j1);
                    }
                    assert forall|k: K::V| #[trigger]
                        as_map(before).remove(key@).contains_key(k) implies as_map(
                        after,
                    ).contains_key(k) by {
                        let j = key_views(before).index_of(k);
                        assert(key_views(before)[j] == k);
                        assert(j != i as int);
                        let j1 = if j < i as int {
                            j
                        } else {
                            j - 1
                        };
                        assert(key_views(after)[j1] == k);
                    }
                    assert(as_map(after) =~= as_map(before).remove(key@));
                }
                self.entries = entries;
                Some(entry.1)
            },
            None => {
                proof {
                    assert(as_map(before) =~= as_map(before).remove(key@));
                }
                None
            },
        }
    }
}

impl<K: Plain, V: Plain> Table<K, V> {
    /// The entries, each key once, in the order in which the keys came in.
    pub fn entries(&self) -> (list: Vec<(K, V)>)
        ensures
            key_views(list@).no_duplicates(),
            as_map(list@) == self@,
    {
        proof {
            use_type_invariant(self);
        }
        let mut list: Vec<(K, V)> = Vec::new();
        let mut i: usize = 0;
        while i < self.entries.len()
            invariant
                i <= self.entries@.len(),
                list@.len() == i,
                forall|j: int|
                    0 <= j < i ==> list@[j].0@ == self.entries@[j].0@ && list@[j].1@
                        == self.entries@[j].1@,
            decreases self.entries@.len() - i,
        {
            let key = self.entries[i].0.duplicate();
            let value = self.entries[i].1.duplicate();
            list.push((key, value));
            i += 1;
        }
        proof {
            assert(key_views(list@) =~= key_views(self.entries@));
            assert(as_map(list@) =~= as_map(self.entries@));
        }
        list
    }
}

impl<K: Plain, V: Plain> Clone for Table<K, V> {
    fn clone(&self) -> (copy: Table<K, V>)
        ensures
            copy@ == self@,
    {
        Table { entries: self.entries() }
    }
}

} // verus!
