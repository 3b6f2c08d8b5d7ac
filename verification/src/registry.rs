//! An executable keyed collection that keeps its entries in order of insertion.
use itertools::Itertools;
use vstd::prelude::*;
use crate::table::Table;
use crate::text::texts;

verus! {

/// A map from text keys to values that keeps its entries in the order in which
/// their keys were first inserted.
///
/// The keys and the values lie in two vectors of one length; no key occurs
/// twice.
#[derive(Debug)]
pub struct Registry<V: View> {
    keys: Vec<String>,
    values: Vec<V>,
}

/// The table that a vector of keys and a vector of values stand for.
pub open spec fn table_of<V: View>(keys: Seq<String>, values: Seq<V>) -> Table<V::V> {
    Table { entries: Seq::new(keys.len(), |i: int| (keys[i]@, values[i]@)) }
}

/// No two of the keys read the same.
pub open spec fn distinct(keys: Seq<String>) -> bool {
    forall|i: int, j: int|
        0 <= i < j < keys.len() ==> (#[trigger] keys[i])@ != (#[trigger] keys[j])@
}

/// Keys are distinct exactly when the table they head is well formed.
pub proof fn lemma_distinct_is_wf<V: View>(keys: Seq<String>, values: Seq<V>)
    ensures
        distinct(keys) <==> table_of(keys, values).wf(),
{
    let t = table_of(keys, values);
    if distinct(keys) {
        assert forall|i: int, j: int| 0 <= i < j < t.entries.len() implies (
        #[trigger] t.entries[i]).0 != (#[trigger] t.entries[j]).0 by {
            assert(keys[i]@ != keys[j]@);
        }
    }
    if t.wf() {
        assert forall|i: int, j: int| 0 <= i < j < keys.len() implies (#[trigger] keys[i])@ != (
        #[trigger] keys[j])@ by {
            assert(t.entries[i].0 != t.entries[j].0);
        }
    }
}

/// `Itertools::collect_vec` on the iterator over a vector: the references to
/// the items, gathered into a vector in the order of the items.
#[verifier::external_body]
fn collect_refs<V>(items: &Vec<V>) -> (r: Vec<&V>)
    ensures
        r@.len() == items@.len(),
        forall|i: int| 0 <= i < r@.len() ==> *(#[trigger] r@[i]) == items@[i],
{
    items.iter().collect_vec()
}

impl<V: View> View for Registry<V> {
    type V = Table<V::V>;

    closed spec fn view(&self) -> Table<V::V> {
        table_of(self.keys@, self.values@)
    }
}

impl<V: View> Registry<V> {
    #[verifier::type_invariant]
    spec fn inv(&self) -> bool {
        &&& self.keys@.len() == self.values@.len()
        &&& distinct(self.keys@)
    }

    proof fn lemma_inv_gives_wf(&self)
        requires
            self.inv(),
        ensures
            self@.wf(),
    {
        lemma_distinct_is_wf(self.keys@, self.values@);
    }

    /// A registry without entries.
    pub fn new() -> (r: Self)
        ensures
            r@ == Table::<V::V>::empty(),
    {
        let r = Registry { keys: Vec::new(), values: Vec::new() };
        assert(r@.entries =~= Seq::empty());
        r
    }

    /// The number of entries.
    pub fn len(&self) -> (n: usize)
        ensures
            n == self@.len(),
    {
        self.keys.len()
    }

    /// States that the table this registry stands for is well formed.
    pub fn well_formed(&self)
        ensures
            self@.wf(),
    {
        proof {
            use_type_invariant(self);
            self.lemma_inv_gives_wf();
        }
    }

    fn find(&self, key: &str) -> (r: Option<usize>)
        ensures
            self@.wf(),
            self.keys@.len() == self.values@.len(),
            match r {
                Some(i) => self@.contains_key(key@) && i == self@.position(key@) && i
                    < self.keys@.len(),
                None => !self@.contains_key(key@),
            },
    {
        proof {
            use_type_invariant(self);
            self.lemma_inv_gives_wf();
        }
        let wanted = key.to_owned();
        let mut i: usize = 0;
        while i < self.keys.len()
            invariant
                self@.wf(),
                self.keys@.len() == self.values@.len(),
                i <= self.keys@.len(),
                wanted@ == key@,
                forall|j: int| 0 <= j < i ==> (#[trigger] self@.entries[j]).0 != key@,
            decreases self.keys@.len() - i,
        {
            if self.keys[i] == wanted {
                proof {
                    assert(self@.entries[i as int].0 == key@);
                    self@.lemma_position(i as int);
                }
                return Some(i);
            }
            i += 1;
        }
        None
    }

    /// Whether a value is stored under `key`.
    pub fn contains_key(&self, key: &str) -> (b: bool)
        ensures
            b == self@.contains_key(key@),
    {
        self.find(key).is_some()
    }

    /// The value stored under `key`, if any.
    pub fn get(&self, key: &str) -> (r: Option<&V>)
        ensures
            match r {
                Some(v) => self@.contains_key(key@) && v@ == self@.get(key@),
                None => !self@.contains_key(key@),
            },
    {
        match self.find(key) {
            Some(i) => Some(&self.values[i]),
            None => None,
        }
    }

    /// The value stored under `key`, if any, for the caller to change.
    pub fn get_mut(&mut self, key: &str) -> (r: Option<&mut V>)
        ensures
            match r {
                Some(v) => old(self)@.contains_key(key@) && v@ == old(self)@.get(key@)
                    && final(self)@ == old(self)@.insert(key@, final(v)@),
                None => !old(self)@.contains_key(key@) && final(self)@ == old(self)@,
            },
    {
        match self.find(key) {
            Some(i) => {
                proof {
                    use_type_invariant(&*self);
                }
                let r = &mut self.values[i];
                proof {
                    let ghost before = old(self)@;
                    let ghost after = table_of(old(self).keys@, old(self).values@.update(i as int, *final(r)));
                    assert(after.entries =~= before.insert(key@, final(r)@).entries);
                }
                Some(r)
            },
            None => None,
        }
    }

    /// Stores `value` under `key`, in place of what was stored there before.
    pub fn insert(&mut self, key: String, value: V)
        ensures
            final(self)@ == old(self)@.insert(key@, value@),
            final(self)@.wf(),
    {
        let found = self.find(key.as_str());
        proof {
            self@.lemma_insert(key@, value@);
        }
        let mut taken = Registry::new();
        std::mem::swap(self, &mut taken);
        let Registry { mut keys, mut values } = taken;
        match found {
            Some(i) => {
                values.set(i, value);
            },
            None => {
                keys.push(key);
                values.push(value);
            },
        }
        proof {
            assert(table_of(keys@, values@).entries =~= old(self)@.insert(key@, value@).entries);
            lemma_distinct_is_wf(keys@, values@);
        }
        *self = Registry { keys, values };
    }

    /// Removes what is stored under `key`; does nothing where there is no such
    /// entry.
    pub fn remove(&mut self, key: &str)
        ensures
            final(self)@ == old(self)@.remove(key@),
            final(self)@.wf(),
    {
        let found = self.find(key);
        proof {
            self@.lemma_remove(key@);
        }
        let mut taken = Registry::new();
        std::mem::swap(self, &mut taken);
        let Registry { mut keys, mut values } = taken;
        match found {
            Some(i) => {
                keys.remove(i);
                values.remove(i);
            },
            None => {},
        }
        proof {
            assert(table_of(keys@, values@).entries =~= old(self)@.remove(key@).entries);
            lemma_distinct_is_wf(keys@, values@);
        }
        *self = Registry { keys, values };
    }

    /// The values stored under those of `keys` that the registry has, in the
    /// order of `keys`.
    pub fn pick(&self, keys: &Vec<String>) -> (r: Vec<&V>)
        ensures
            r@.len() == self@.pick(texts(keys@)).len(),
            forall|i: int|
                0 <= i < r@.len() ==> (#[trigger] r@[i])@ == self@.pick(texts(keys@))[i],
    {
        let mut r: Vec<&V> = Vec::new();
        let mut i: usize = 0;
        assert(texts(keys@).take(0) =~= Seq::empty());
        while i < keys.len()
            invariant
                i <= keys@.len(),
                r@.len() == self@.pick(texts(keys@).take(i as int)).len(),
                forall|j: int|
                    0 <= j < r@.len() ==> (#[trigger] r@[j])@ == self@.pick(
                        texts(keys@).take(i as int),
                    )[j],
            decreases keys@.len() - i,
        {
            proof {
                let next = texts(keys@).take(i + 1);
                assert(next.drop_last() =~= texts(keys@).take(i as int));
                assert(next.last() == keys@[i as int]@);
            }
            match self.get(keys[i].as_str()) {
                Some(value) => {
                    r.push(value);
                },
                None => {},
            }
            i += 1;
        }
        assert(texts(keys@).take(keys@.len() as int) =~= texts(keys@));
        r
    }

    /// The values in order of insertion of their keys.
    pub fn values(&self) -> (r: Vec<&V>)
        ensures
            r@.len() == self@.len(),
            forall|i: int| 0 <= i < r@.len() ==> (#[trigger] r@[i])@ == self@.entries[i].1,
    {
        proof {
            use_type_invariant(self);
        }
        collect_refs(&self.values)
    }
}

} // verus!
