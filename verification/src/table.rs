//! A small keyed store: a list of entries in which no key occurs twice, seen
//! as a map from keys to values.

use vstd::prelude::*;

verus! {

/// A key of a `Table`. Two keys are the same when their views are equal.
pub trait Key: View + Sized {
    /// Whether `self` and `other` are the same key.
    fn same(&self, other: &Self) -> (result: bool)
        ensures
            result == (self@ == other@),
    ;
}

impl Key for String {
    fn same(&self, other: &Self) -> (result: bool) {
        *self == *other
    }
}

/// Whether some entry of `entries` has the key `id`.
pub open spec fn has_key<K: View, V>(entries: Seq<(K, V)>, id: K::V) -> bool {
    exists|i: int| 0 <= i < entries.len() && (#[trigger] entries[i]).0@ == id
}

/// The position of an entry with the key `id`.
pub open spec fn position<K: View, V>(entries: Seq<(K, V)>, id: K::V) -> int {
    choose|i: int| 0 <= i < entries.len() && (#[trigger] entries[i]).0@ == id
}

/// Whether no key occurs twice in `entries`.
pub open spec fn distinct_keys<K: View, V>(entries: Seq<(K, V)>) -> bool {
    forall|i: int, j: int|
        0 <= i < j < entries.len() ==> (#[trigger] entries[i]).0@ != (#[trigger] entries[j]).0@
}

/// The map that `entries` stands for.
pub open spec fn as_map<K: View, V>(entries: Seq<(K, V)>) -> Map<K::V, V> {
    Map::new(|id: K::V| has_key(entries, id), |id: K::V| entries[position(entries, id)].1)
}

/// An entry is found under its own key.
pub proof fn lemma_entry_found<K: View, V>(entries: Seq<(K, V)>, i: int)
    requires
        distinct_keys(entries),
        0 <= i < entries.len(),
    ensures
        as_map(entries).contains_key(entries[i].0@),
        as_map(entries)[entries[i].0@] == entries[i].1,
{
    let id = entries[i].0@;
    assert(has_key(entries, id));
    let p = position(entries, id);
    assert(0 <= p < entries.len() && entries[p].0@ == id);
    if p < i {
        assert(entries[p].0@ != entries[i].0@);
    }
    if i < p {
        assert(entries[i].0@ != entries[p].0@);
    }
}

/// Appending an entry under a key that is not there yet adds it to the map.
pub proof fn lemma_push_inserts<K: View, V>(entries: Seq<(K, V)>, key: K, value: V)
    requires
        distinct_keys(entries),
        !has_key(entries, key@),
    ensures
        distinct_keys(entries.push((key, value))),
        as_map(entries.push((key, value))) == as_map(entries).insert(key@, value),
{
    let grown = entries.push((key, value));
    assert forall|i: int, j: int| 0 <= i < j < grown.len() implies (#[trigger] grown[i]).0@ != (
    #[trigger] grown[j]).0@ by {
        if j < entries.len() {
            assert(entries[i].0@ != entries[j].0@);
        } else {
            assert(grown[i] == entries[i]);
            if entries[i].0@ == key@ {
                assert(has_key(entries, key@));
            }
        }
    }
    assert forall|id: K::V| #[trigger]
        as_map(grown).contains_key(id) == as_map(entries).insert(key@, value).contains_key(id) by {
        if has_key(grown, id) {
            let p = position(grown, id);
            if p < entries.len() {
                assert(entries[p].0@ == id);
            }
        }
        if has_key(entries, id) {
            let p = position(entries, id);
            assert(grown[p].0@ == id);
        }
        if id == key@ {
            assert(grown[entries.len() as int].0@ == id);
        }
    }
    assert forall|id: K::V| #[trigger]
        as_map(grown).contains_key(id) implies as_map(grown)[id] == as_map(entries).insert(
        key@,
        value,
    )[id] by {
        let p = position(grown, id);
        lemma_entry_found(grown, p);
        if p < entries.len() {
            assert(grown[p] == entries[p]);
            lemma_entry_found(entries, p);
        }
    }
    assert(as_map(grown) =~= as_map(entries).insert(key@, value));
}

/// Replacing the value of an entry replaces it in the map.
pub proof fn lemma_update_inserts<K: View, V>(entries: Seq<(K, V)>, i: int, key: K, value: V)
    requires
        distinct_keys(entries),
        0 <= i < entries.len(),
        entries[i].0@ == key@,
    ensures
        distinct_keys(entries.update(i, (key, value))),
        as_map(entries.update(i, (key, value))) == as_map(entries).insert(key@, value),
{
    let changed = entries.update(i, (key, value));
    assert forall|a: int, b: int| 0 <= a < b < changed.len() implies (#[trigger] changed[a]).0@ != (
    #[trigger] changed[b]).0@ by {
        assert(changed[a].0@ == entries[a].0@);
        assert(changed[b].0@ == entries[b].0@);
        assert(entries[a].0@ != entries[b].0@);
    }
    assert forall|id: K::V| #[trigger]
        as_map(changed).contains_key(id) == as_map(entries).insert(key@, value).contains_key(
            id,
        ) by {
        if has_key(changed, id) {
            let p = position(changed, id);
            assert(entries[p].0@ == id);
        }
        if has_key(entries, id) {
            let p = position(entries, id);
            assert(changed[p].0@ == id);
        }
        if id == key@ {
            assert(changed[i].0@ == id);
        }
    }
    assert forall|id: K::V| #[trigger]
        as_map(changed).contains_key(id) implies as_map(changed)[id] == as_map(entries).insert(
        key@,
        value,
    )[id] by {
        let p = position(changed, id);
        lemma_entry_found(changed, p);
        if p != i {
            assert(changed[p] == entries[p]);
            lemma_entry_found(entries, p);
        }
    }
    assert(as_map(changed) =~= as_map(entries).insert(key@, value));
}

/// A store of values under keys.
pub struct Table<K: Key, V> {
    entries: Vec<(K, V)>,
}

impl<K: Key, V> View for Table<K, V> {
    type V = Map<K::V, V>;

    closed spec fn view(&self) -> Map<K::V, V> {
        as_map(self.entries@)
    }
}

impl<K: Key, V> Table<K, V> {
    /// Whether the table is well formed: no key occurs twice in it.
    pub closed spec fn wf(&self) -> bool {
        distinct_keys(self.entries@)
    }

    /// The empty table.
    pub fn new() -> (table: Self)
        ensures
            table.wf(),
            table@ == Map::<K::V, V>::empty(),
    {
        let table = Table { entries: Vec::new() };
        assert(table@ =~= Map::<K::V, V>::empty());
        table
    }

    fn find(&self, key: &K) -> (found: Option<usize>)
        ensures
            match found {
                Some(i) => i < self.entries@.len() && self.entries@[i as int].0@ == key@,
                None => !has_key(self.entries@, key@),
            },
    {
        let mut i: usize = 0;
        while i < self.entries.len()
            invariant
                i <= self.entries@.len(),
                forall|j: int| 0 <= j < i ==> (#[trigger] self.entries@[j]).0@ != key@,
            decreases self.entries@.len() - i,
        {
            if self.entries[i].0.same(key) {
                return Some(i);
            }
            i += 1;
        }
        None
    }

    /// The value under `key`, if there is one.
    pub fn get(&self, key: &K) -> (value: Option<&V>)
        requires
            self.wf(),
        ensures
            match value {
                Some(v) => self@.contains_key(key@) && *v == self@[key@],
                None => !self@.contains_key(key@),
            },
    {
        match self.find(key) {
            Some(i) => {
                proof {
                    lemma_entry_found(self.entries@, i as int);
                }
                Some(&self.entries[i].1)
            },
            None => None,
        }
    }

    /// Puts `value` under `key`, in place of the value that was there.
    pub fn insert(&mut self, key: K, value: V)
        requires
            old(self).wf(),
        ensures
            final(self).wf(),
            final(self)@ == old(self)@.insert(key@, value),
    {
        match self.find(&key) {
            Some(i) => {
                proof {
                    lemma_update_inserts(self.entries@, i as int, key, value);
                }
                self.entries.set(i, (key, value));
            },
            None => {
                proof {
                    lemma_push_inserts(self.entries@, key, value);
                }
                self.entries.push((key, value));
            },
        }
    }
}

} // verus!
