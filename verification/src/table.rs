//! The mathematical model of a keyed collection that remembers the order in
//! which its keys arrived.
use vstd::prelude::*;

verus! {

/// A finite map from text keys to values, together with the order in which
/// the keys were first inserted.
///
/// A table is a sequence of key and value pairs; it is well formed when no
/// key occurs twice.
pub struct Table<V> {
    pub entries: Seq<(Seq<char>, V)>,
}

impl<V> Table<V> {
    /// The table without entries.
    pub open spec fn empty() -> Self {
        Table { entries: Seq::empty() }
    }

    /// No key occurs twice.
    pub open spec fn wf(self) -> bool {
        forall|i: int, j: int|
            0 <= i < j < self.entries.len() ==> (#[trigger] self.entries[i]).0 != (
            #[trigger] self.entries[j]).0
    }

    /// The number of entries.
    pub open spec fn len(self) -> nat {
        self.entries.len()
    }

    /// Whether an entry with key `k` exists.
    pub open spec fn contains_key(self, k: Seq<char>) -> bool {
        exists|i: int| 0 <= i < self.entries.len() && (#[trigger] self.entries[i]).0 == k
    }

    /// The place of key `k` in the order of insertion, where the table has it.
    pub open spec fn position(self, k: Seq<char>) -> int {
        choose|i: int| 0 <= i < self.entries.len() && (#[trigger] self.entries[i]).0 == k
    }

    /// The value stored under `k`, where the table has that key.
    pub open spec fn get(self, k: Seq<char>) -> V
        recommends
            self.contains_key(k),
    {
        self.entries[self.position(k)].1
    }

    /// The value stored under `k`, if any.
    pub open spec fn lookup(self, k: Seq<char>) -> Option<V> {
        if self.contains_key(k) {
            Some(self.get(k))
        } else {
            None
        }
    }

    /// The table after `v` was stored under `k`: an entry that exists keeps
    /// its place and takes the new value, a new key goes to the end.
    pub open spec fn insert(self, k: Seq<char>, v: V) -> Self {
        if self.contains_key(k) {
            Table { entries: self.entries.update(self.position(k), (k, v)) }
        } else {
            Table { entries: self.entries.push((k, v)) }
        }
    }

    /// The table without the entry for `k`; the others keep their order.
    pub open spec fn remove(self, k: Seq<char>) -> Self {
        if self.contains_key(k) {
            Table { entries: self.entries.remove(self.position(k)) }
        } else {
            self
        }
    }

    /// The values in order of insertion of their keys.
    pub open spec fn values(self) -> Seq<V> {
        Seq::new(self.entries.len(), |i: int| self.entries[i].1)
    }

    /// The values stored under those of `keys` that the table has, in the
    /// order of `keys`. A key that the table lacks gives nothing.
    pub open spec fn pick(self, keys: Seq<Seq<char>>) -> Seq<V>
        decreases keys.len(),
    {
        if keys.len() == 0 {
            Seq::empty()
        } else if self.contains_key(keys.last()) {
            self.pick(keys.drop_last()).push(self.get(keys.last()))
        } else {
            self.pick(keys.drop_last())
        }
    }

    /// The table that comes of storing each of `items`, in order, under the
    /// key that `key` gives for it.
    pub open spec fn gather(items: Seq<V>, key: spec_fn(V) -> Seq<char>) -> Self
        decreases items.len(),
    {
        if items.len() == 0 {
            Table::empty()
        } else {
            Table::gather(items.drop_last(), key).insert(key(items.last()), items.last())
        }
    }

    /// Every value is stored under the key that `key` gives for it.
    pub open spec fn keyed_by(self, key: spec_fn(V) -> Seq<char>) -> bool {
        forall|i: int|
            0 <= i < self.entries.len() ==> key((#[trigger] self.entries[i]).1)
                == self.entries[i].0
    }

    /// In a well-formed table the place of a key is the one index that holds it.
    pub proof fn lemma_position(self, i: int)
        requires
            self.wf(),
            0 <= i < self.entries.len(),
        ensures
            self.contains_key(self.entries[i].0),
            self.position(self.entries[i].0) == i,
            self.get(self.entries[i].0) == self.entries[i].1,
    {
        let k = self.entries[i].0;
        let p = self.position(k);
        assert(0 <= p < self.entries.len() && self.entries[p].0 == k);
        if p < i {
            assert(self.entries[p].0 != self.entries[i].0);
        } else if i < p {
            assert(self.entries[i].0 != self.entries[p].0);
        }
    }

    /// Storing a value keeps the table well formed, makes the key present with
    /// that value, and leaves every other key as it was.
    pub proof fn lemma_insert(self, k: Seq<char>, v: V)
        requires
            self.wf(),
        ensures
            self.insert(k, v).wf(),
            self.insert(k, v).contains_key(k),
            self.insert(k, v).get(k) == v,
            forall|o: Seq<char>|
                o != k ==> self.insert(k, v).contains_key(o) == self.contains_key(o),
            forall|o: Seq<char>|
                o != k && self.contains_key(o) ==> self.insert(k, v).get(o) == self.get(o),
            self.insert(k, v).len() == if self.contains_key(k) {
                self.len()
            } else {
                self.len() + 1
            },
    {
        let t = self.insert(k, v);
        if self.contains_key(k) {
            let p = self.position(k);
            assert(t.entries[p] == (k, v));
            assert forall|i: int, j: int| 0 <= i < j < t.entries.len() implies (
            #[trigger] t.entries[i]).0 != (#[trigger] t.entries[j]).0 by {
                assert(t.entries[i].0 == self.entries[i].0);
                assert(t.entries[j].0 == self.entries[j].0);
            }
            t.lemma_position(p);
            assert forall|o: Seq<char>| o != k implies t.contains_key(o) == self.contains_key(
                o,
            ) by {
                if self.contains_key(o) {
                    let q = self.position(o);
                    assert(t.entries[q] == self.entries[q]);
                }
                if t.contains_key(o) {
                    let q = t.position(o);
                    assert(t.entries[q] == self.entries[q]);
                }
            }
            assert forall|o: Seq<char>| o != k && self.contains_key(o) implies t.get(o)
                == self.get(o) by {
                let q = self.position(o);
                assert(t.entries[q] == self.entries[q]);
                t.lemma_position(q);
            }
        } else {
            let p = self.entries.len() as int;
            assert(t.entries[p] == (k, v));
            assert forall|i: int, j: int| 0 <= i < j < t.entries.len() implies (
            #[trigger] t.entries[i]).0 != (#[trigger] t.entries[j]).0 by {
                if j < p {
                    assert(t.entries[i] == self.entries[i]);
                    assert(t.entries[j] == self.entries[j]);
                } else {
                    assert(t.entries[i] == self.entries[i]);
                }
            }
            t.lemma_position(p);
            assert forall|o: Seq<char>| o != k implies t.contains_key(o) == self.contains_key(
                o,
            ) by {
                if self.contains_key(o) {
                    let q = self.position(o);
                    assert(t.entries[q] == self.entries[q]);
                }
                if t.contains_key(o) {
                    let q = t.position(o);
                    assert(t.entries[q] == self.entries[q]);
                }
            }
            assert forall|o: Seq<char>| o != k && self.contains_key(o) implies t.get(o)
                == self.get(o) by {
                let q = self.position(o);
                assert(t.entries[q] == self.entries[q]);
                t.lemma_position(q);
            }
        }
    }

    /// Storing under a key the value that it has changes nothing.
    pub proof fn lemma_insert_same(self, k: Seq<char>)
        requires
            self.contains_key(k),
        ensures
            self.insert(k, self.get(k)) == self,
    {
        assert(self.insert(k, self.get(k)).entries =~= self.entries);
    }

    /// After a value was stored, each entry is the new one or stands where it
    /// stood before.
    pub proof fn lemma_insert_entries(self, k: Seq<char>, v: V)
        ensures
            forall|i: int|
                0 <= i < self.insert(k, v).entries.len() ==> #[trigger] self.insert(
                    k,
                    v,
                ).entries[i] == (k, v) || (i < self.entries.len() && self.insert(k, v).entries[i]
                    == self.entries[i]),
    {
    }

    /// After a key was removed, each entry is one that the table held before.
    pub proof fn lemma_remove_entries(self, k: Seq<char>)
        ensures
            forall|i: int|
                0 <= i < self.remove(k).entries.len() ==> (#[trigger] self.remove(k).entries[i]
                    == self.entries[i] || self.remove(k).entries[i] == self.entries[i + 1]) && i
                    < self.entries.len(),
            self.remove(k).entries.len() <= self.entries.len(),
    {
    }

    /// Storing a value under the key that `key` gives for it keeps every
    /// value under its own key.
    pub proof fn lemma_insert_keeps_keyed(self, k: Seq<char>, v: V, key: spec_fn(V) -> Seq<char>)
        requires
            self.keyed_by(key),
            key(v) == k,
        ensures
            self.insert(k, v).keyed_by(key),
    {
        self.lemma_insert_entries(k, v);
        let t = self.insert(k, v);
        assert forall|i: int| 0 <= i < t.entries.len() implies key((#[trigger] t.entries[i]).1)
            == t.entries[i].0 by {
            if t.entries[i] != (k, v) {
                assert(t.entries[i] == self.entries[i]);
            }
        }
    }

    /// Removing a key keeps every value under its own key.
    pub proof fn lemma_remove_keeps_keyed(self, k: Seq<char>, key: spec_fn(V) -> Seq<char>)
        requires
            self.keyed_by(key),
        ensures
            self.remove(k).keyed_by(key),
    {
        self.lemma_remove_entries(k);
        let t = self.remove(k);
        assert forall|i: int| 0 <= i < t.entries.len() implies key((#[trigger] t.entries[i]).1)
            == t.entries[i].0 by {
            if t.entries[i] == self.entries[i] {
            } else {
                assert(t.entries[i] == self.entries[i + 1]);
                assert(i + 1 < self.entries.len()) by {
                    if self.contains_key(k) {
                    } else {
                        assert(t.entries[i] == self.entries[i]);
                    }
                }
            }
        }
    }

    /// Removing a key keeps the table well formed, makes the key absent, and
    /// leaves every other key as it was.
    pub proof fn lemma_remove(self, k: Seq<char>)
        requires
            self.wf(),
        ensures
            self.remove(k).wf(),
            !self.remove(k).contains_key(k),
            forall|o: Seq<char>|
                o != k ==> self.remove(k).contains_key(o) == self.contains_key(o),
            forall|o: Seq<char>|
                o != k && self.contains_key(o) ==> self.remove(k).get(o) == self.get(o),
            self.remove(k).len() == if self.contains_key(k) {
                self.len() - 1
            } else {
                self.len() as int
            },
    {
        let t = self.remove(k);
        if self.contains_key(k) {
            let p = self.position(k);
            assert forall|i: int| 0 <= i < t.entries.len() implies #[trigger] t.entries[i] == (
            if i < p {
                self.entries[i]
            } else {
                self.entries[i + 1]
            }) by {}
            assert forall|i: int, j: int| 0 <= i < j < t.entries.len() implies (
            #[trigger] t.entries[i]).0 != (#[trigger] t.entries[j]).0 by {
                let a = if i < p { i } else { i + 1 };
                let b = if j < p { j } else { j + 1 };
                assert(self.entries[a].0 != self.entries[b].0);
            }
            if t.contains_key(k) {
                let q = t.position(k);
                let a = if q < p { q } else { q + 1 };
                assert(self.entries[a].0 == k);
                self.lemma_position(a);
            }
            assert forall|o: Seq<char>| o != k implies t.contains_key(o) == self.contains_key(
                o,
            ) by {
                if self.contains_key(o) {
                    let q = self.position(o);
                    let a = if q < p { q } else { q - 1 };
                    assert(t.entries[a] == self.entries[q]);
                }
                if t.contains_key(o) {
                    let q = t.position(o);
                    let a = if q < p { q } else { q + 1 };
                    assert(self.entries[a] == t.entries[q]);
                }
            }
            assert forall|o: Seq<char>| o != k && self.contains_key(o) implies t.get(o)
                == self.get(o) by {
                let q = self.position(o);
                let a = if q < p { q } else { q - 1 };
                assert(t.entries[a] == self.entries[q]);
                t.lemma_position(a);
            }
        }
    }

    /// Gathering items whose keys differ from one another gives a well-formed
    /// table that holds the items in their order, each under its key.
    pub proof fn lemma_gather_distinct(items: Seq<V>, key: spec_fn(V) -> Seq<char>)
        requires
            forall|i: int, j: int|
                0 <= i < j < items.len() ==> key(#[trigger] items[i]) != key(#[trigger] items[j]),
        ensures
            Table::gather(items, key).wf(),
            Table::gather(items, key).entries == Seq::new(
                items.len(),
                |i: int| (key(items[i]), items[i]),
            ),
        decreases items.len(),
    {
        let t = Table::gather(items, key);
        let expected = Seq::new(items.len(), |i: int| (key(items[i]), items[i]));
        if items.len() == 0 {
            assert(t.entries =~= expected);
        } else {
            let init = items.drop_last();
            let before = Table::gather(init, key);
            assert forall|i: int, j: int| 0 <= i < j < init.len() implies key(
                #[trigger] init[i],
            ) != key(#[trigger] init[j]) by {
                assert(init[i] == items[i]);
                assert(init[j] == items[j]);
            }
            Table::lemma_gather_distinct(init, key);
            let k = key(items.last());
            if before.contains_key(k) {
                let p = before.position(k);
                assert(before.entries[p].0 == key(init[p]));
                assert(init[p] == items[p]);
                assert(key(items[p]) != key(items[items.len() - 1]));
            }
            before.lemma_insert(k, items.last());
            assert(t.entries =~= expected);
        }
    }

    /// Gathering the values of a well-formed table, each under the key that
    /// it is stored under, gives the table back.
    pub proof fn lemma_gather_values(self, key: spec_fn(V) -> Seq<char>)
        requires
            self.wf(),
            self.keyed_by(key),
        ensures
            Table::gather(self.values(), key) == self,
    {
        let items = self.values();
        assert forall|i: int, j: int| 0 <= i < j < items.len() implies key(#[trigger] items[i])
            != key(#[trigger] items[j]) by {
            assert(key(self.entries[i].1) == self.entries[i].0);
            assert(key(self.entries[j].1) == self.entries[j].0);
        }
        Table::lemma_gather_distinct(items, key);
        assert forall|i: int| 0 <= i < self.entries.len() implies Table::gather(
            items,
            key,
        ).entries[i] == #[trigger] self.entries[i] by {
            assert(key(self.entries[i].1) == self.entries[i].0);
        }
        assert(Table::gather(items, key).entries =~= self.entries);
    }

    /// Storing a value under a key that the table lacks and removing that key
    /// again gives the table back as it was.
    pub proof fn lemma_insert_then_remove(self, k: Seq<char>, v: V)
        requires
            self.wf(),
            !self.contains_key(k),
        ensures
            self.insert(k, v).remove(k) == self,
    {
        let t = self.insert(k, v);
        let p = self.entries.len() as int;
        assert(t.entries[p] == (k, v));
        self.lemma_insert(k, v);
        t.lemma_position(p);
        assert(t.remove(k).entries =~= self.entries);
    }
}

} // verus!
