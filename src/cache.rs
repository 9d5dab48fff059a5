use vstd::prelude::*;
use vstd::string::*;
use std::time::Duration;
use crate::text::{decimal, decimal_string};

verus! {

/// A named cache from string keys to values, with a time to live that it
/// keeps but does not consult. Each key appears once.
///
/// The entries live in a vector: vstd models `HashMap` only for keys that
/// follow its key model, which `String` is not shown to, and its
/// string-keyed map cannot hand back the value that an insert replaces.
pub struct Cache<'a, T: Clone> {
    data: Vec<(String, T)>,
    ttl: Duration,
    name: &'a str,
}

impl<'a, T: Clone> Cache<'a, T> {
    /// Well-formedness: no key is stored twice.
    pub closed spec fn wf(&self) -> bool {
        forall|i: int, j: int|
            0 <= i < self.data@.len() && 0 <= j < self.data@.len() && i != j
                ==> #[trigger] self.data@[i].0@ != #[trigger] self.data@[j].0@
    }

    closed spec fn has_key_at(&self, k: Seq<char>, i: int) -> bool {
        0 <= i < self.data@.len() && self.data@[i].0@ == k
    }

    /// The contents of the cache.
    pub closed spec fn entries(&self) -> Map<Seq<char>, T> {
        Map::new(
            |k: Seq<char>| exists|i: int| self.has_key_at(k, i),
            |k: Seq<char>| self.data@[choose|i: int| self.has_key_at(k, i)].1,
        )
    }

    /// The name given at creation.
    pub closed spec fn name_spec(&self) -> Seq<char> {
        self.name@
    }

    /// The number of stored entries.
    pub closed spec fn size(&self) -> nat {
        self.data@.len()
    }

    /// The time to live given at creation.
    pub closed spec fn ttl_spec(&self) -> Duration {
        self.ttl
    }

    proof fn lemma_entry_at(&self, i: int)
        requires
            self.wf(),
            0 <= i < self.data@.len(),
        ensures
            self.entries().contains_key(self.data@[i].0@),
            self.entries()[self.data@[i].0@] == self.data@[i].1,
    {
        let k = self.data@[i].0@;
        assert(self.has_key_at(k, i));
        let c = choose|c: int| self.has_key_at(k, c);
        assert(c == i);
    }

    /// The number of stored entries is the number of keys of `entries()`.
    pub proof fn lemma_size_counts_keys(&self)
        requires
            self.wf(),
        ensures
            self.size() == self.entries().len(),
    {
        let keys = self.data@.map_values(|e: (String, T)| e.0@);
        assert forall|i: int, j: int| 0 <= i < keys.len() && 0 <= j < keys.len() && i != j
            implies keys[i] != keys[j] by {
            assert(self.data@[i].0@ != self.data@[j].0@);
        }
        keys.unique_seq_to_set();
        assert forall|k: Seq<char>| #![auto] self.entries().dom().contains(k) == keys.to_set().contains(k) by {
            if self.entries().dom().contains(k) {
                let i = choose|i: int| self.has_key_at(k, i);
                assert(keys[i] == k);
            }
            if keys.to_set().contains(k) {
                let i = choose|i: int| 0 <= i < keys.len() && keys[i] == k;
                assert(self.has_key_at(k, i));
            }
        }
        assert(self.entries().dom() =~= keys.to_set());
    }

    /// An empty cache with the given name and time to live.
    pub fn new(name: &'a str, ttl: Duration) -> (r: Self)
        ensures
            r.wf(),
            r.entries() == Map::<Seq<char>, T>::empty(),
            r.name_spec() == name@,
            r.ttl_spec() == ttl,
            r.size() == 0,
    {
        let r = Cache { data: Vec::new(), ttl, name };
        assert(r.entries() =~= Map::<Seq<char>, T>::empty());
        r
    }

    /// The number of stored entries.
    pub fn len(&self) -> (r: usize)
        requires
            self.wf(),
        ensures
            r == self.size(),
            r == self.entries().len(),
    {
        proof {
            self.lemma_size_counts_keys();
        }
        self.data.len()
    }

    /// A one-line description: the cache's name and how many items it holds.
    pub fn describe(&self) -> (r: String)
        ensures
            r@ == "Cache '"@ + self.name_spec() + "' with "@ + decimal(self.size()) + " items"@,
    {
        let mut s = String::from_str("Cache '");
        s.append(self.name);
        s.append("' with ");
        let count = decimal_string(self.data.len() as u64);
        s.append(count.as_str());
        s.append(" items");
        s
    }

    /// Where `key` is stored, if it is.
    fn position(&self, key: &str) -> (r: Option<usize>)
        ensures
            match r {
                Some(i) => self.has_key_at(key@, i as int),
                None => forall|i: int| !self.has_key_at(key@, i),
            },
    {
        let wanted = String::from_str(key);
        let mut i: usize = 0;
        while i < self.data.len()
            invariant
                wanted@ == key@,
                i <= self.data@.len(),
                forall|j: int| 0 <= j < i ==> !self.has_key_at(key@, j),
            decreases self.data.len() - i,
        {
            if self.data[i].0 == wanted {
                return Some(i);
            }
            i = i + 1;
        }
        None
    }

    /// The value stored under `key`, if any.
    pub fn get(&self, key: &str) -> (r: Option<&T>)
        requires
            self.wf(),
        ensures
            match r {
                Some(v) => self.entries().contains_key(key@) && *v == self.entries()[key@],
                None => !self.entries().contains_key(key@),
            },
    {
        match self.position(key) {
            Some(i) => {
                proof {
                    self.lemma_entry_at(i as int);
                }
                Some(&self.data[i].1)
            },
            None => None,
        }
    }

    /// Stores `value` under `key` and returns the value it replaced, if any.
    pub fn insert(&mut self, key: String, value: T) -> (r: Option<T>)
        requires
            old(self).wf(),
        ensures
            final(self).wf(),
            final(self).entries() == old(self).entries().insert(key@, value),
            match r {
                Some(v) => old(self).entries().contains_key(key@) && v == old(self).entries()[key@],
                None => !old(self).entries().contains_key(key@),
            },
            final(self).name_spec() == old(self).name_spec(),
            final(self).size() == old(self).size() + if r is Some { 0nat } else { 1nat },
            final(self).ttl_spec() == old(self).ttl_spec(),
    {
        let ghost before = *self;
        match self.position(key.as_str()) {
            Some(i) => {
                proof {
                    before.lemma_entry_at(i as int);
                }
                let (old_key, old_value) = self.data.remove(i);
                self.data.insert(i, (old_key, value));
                proof {
                    assert(self.data@ =~= before.data@.update(i as int, (old_key, value)));
                    assert forall|a: int, b: int|
                        0 <= a < self.data@.len() && 0 <= b < self.data@.len() && a != b
                        implies self.data@[a].0@ != self.data@[b].0@ by {
                        assert(self.data@[a].0 == before.data@[a].0);
                        assert(self.data@[b].0 == before.data@[b].0);
                        assert(before.data@[a].0@ != before.data@[b].0@);
                    }
                    assert(self.wf());
                    assert forall|k: Seq<char>| #![auto] self.entries().contains_key(k)
                        == before.entries().insert(key@, value).contains_key(k) by {
                        if self.entries().contains_key(k) {
                            let j = choose|j: int| self.has_key_at(k, j);
                            assert(before.has_key_at(k, j));
                        }
                        if before.entries().contains_key(k) {
                            let j = choose|j: int| before.has_key_at(k, j);
                            assert(self.has_key_at(k, j));
                        }
                        if k == key@ {
                            assert(self.has_key_at(k, i as int));
                        }
                    }
                    assert forall|k: Seq<char>| #![auto] self.entries().contains_key(k)
                        implies self.entries()[k] == before.entries().insert(key@, value)[k] by {
                        let j = choose|j: int| self.has_key_at(k, j);
                        self.lemma_entry_at(j);
                        if j != i {
                            before.lemma_entry_at(j);
                        }
                    }
                    assert(self.entries() =~= before.entries().insert(key@, value));
                }
                Some(old_value)
            },
            None => {
                let ghost k0 = key@;
                self.data.push((key, value));
                proof {
                    let n = before.data@.len() as int;
                    assert(self.data@ =~= before.data@.push((self.data@[n].0, value)));
                    assert(self.data@[n].0@ == k0);
                    assert forall|a: int, b: int|
                        0 <= a < self.data@.len() && 0 <= b < self.data@.len() && a != b
                        implies self.data@[a].0@ != self.data@[b].0@ by {
                        if a < n && b < n {
                            assert(before.data@[a].0@ != before.data@[b].0@);
                        } else if a < n {
                            assert(!before.has_key_at(k0, a));
                        } else {
                            assert(!before.has_key_at(k0, b));
                        }
                    }
                    assert(self.wf());
                    assert forall|k: Seq<char>| #![auto] self.entries().contains_key(k)
                        == before.entries().insert(k0, value).contains_key(k) by {
                        if self.entries().contains_key(k) {
                            let j = choose|j: int| self.has_key_at(k, j);
                            if j != n {
                                assert(before.has_key_at(k, j));
                            }
                        }
                        if before.entries().contains_key(k) {
                            let j = choose|j: int| before.has_key_at(k, j);
                            assert(self.has_key_at(k, j));
                        }
                        if k == k0 {
                            assert(self.has_key_at(k, n));
                        }
                    }
                    assert forall|k: Seq<char>| #![auto] self.entries().contains_key(k)
                        implies self.entries()[k] == before.entries().insert(k0, value)[k] by {
                        let j = choose|j: int| self.has_key_at(k, j);
                        self.lemma_entry_at(j);
                        if j != n {
                            before.lemma_entry_at(j);
                        }
                    }
                    assert(self.entries() =~= before.entries().insert(k0, value));
                }
                None
            },
        }
    }
}

} // verus!
