//! A map keyed by strings, held as two parallel vectors in insertion order.
//! No key occurs twice.

use crate::text::{str_eq, strings_view};
use vstd::prelude::*;

verus! {

/// The first index below `n` at which `key` stands among `keys`.
pub open spec fn find_key(keys: Seq<Seq<char>>, key: Seq<char>, n: int) -> Option<int>
    decreases n,
{
    if n <= 0 {
        None
    } else {
        match find_key(keys, key, n - 1) {
            Some(i) => Some(i),
            None => if keys[n - 1] == key {
                Some(n - 1)
            } else {
                None
            },
        }
    }
}

/// The index at which `key` stands among `keys`.
pub open spec fn position_of(keys: Seq<Seq<char>>, key: Seq<char>) -> Option<int> {
    find_key(keys, key, keys.len() as int)
}

/// Whether no key occurs twice.
pub open spec fn distinct_keys(keys: Seq<Seq<char>>) -> bool {
    forall|i: int, j: int| 0 <= i < j < keys.len() ==> keys[i] != keys[j]
}

/// What a search result says of the keys searched.
pub proof fn lemma_find_key(keys: Seq<Seq<char>>, key: Seq<char>, n: int)
    requires
        0 <= n <= keys.len(),
    ensures
        match find_key(keys, key, n) {
            Some(i) => 0 <= i < n && keys[i] == key && forall|j: int| 0 <= j < i ==> keys[j] != key,
            None => forall|j: int| 0 <= j < n ==> keys[j] != key,
        },
    decreases n,
{
    if n > 0 {
        lemma_find_key(keys, key, n - 1);
    }
}

/// A search looks only at the keys below its bound.
pub proof fn lemma_find_key_prefix(a: Seq<Seq<char>>, b: Seq<Seq<char>>, key: Seq<char>, n: int)
    requires
        0 <= n <= a.len(),
        n <= b.len(),
        forall|j: int| 0 <= j < n ==> a[j] == b[j],
    ensures
        find_key(a, key, n) == find_key(b, key, n),
    decreases n,
{
    if n > 0 {
        lemma_find_key_prefix(a, b, key, n - 1);
    }
}

/// A map from strings to values of type `V`.
#[derive(Debug, Clone)]
pub struct StrMap<V> {
    keys: Vec<String>,
    vals: Vec<V>,
}

impl<V> StrMap<V> {
    /// The keys, in insertion order.
    pub closed spec fn spec_keys(&self) -> Seq<Seq<char>> {
        strings_view(self.keys@)
    }

    /// The values, each at the index of its key.
    pub closed spec fn spec_vals(&self) -> Seq<V> {
        self.vals@
    }

    /// Every key has a value and no key occurs twice.
    pub closed spec fn wf(&self) -> bool {
        &&& self.keys@.len() == self.vals@.len()
        &&& distinct_keys(self.spec_keys())
    }

    /// Number of entries.
    pub open spec fn spec_len(&self) -> nat {
        self.spec_keys().len()
    }

    /// The index of `key`, if the map holds it.
    pub open spec fn spec_position(&self, key: Seq<char>) -> Option<int> {
        position_of(self.spec_keys(), key)
    }

    /// Whether the map holds `key`.
    pub open spec fn spec_contains(&self, key: Seq<char>) -> bool {
        self.spec_position(key).is_some()
    }

    /// The value under `key`, if the map holds it.
    pub open spec fn spec_get(&self, key: Seq<char>) -> Option<V> {
        match self.spec_position(key) {
            Some(i) => Some(self.spec_vals()[i]),
            None => None,
        }
    }

    /// What well-formedness says of keys and values.
    pub proof fn lemma_wf(&self)
        requires
            self.wf(),
        ensures
            self.spec_keys().len() == self.spec_vals().len(),
            distinct_keys(self.spec_keys()),
    {
    }

    /// The empty map.
    pub fn new() -> (m: StrMap<V>)
        ensures
            m.wf(),
            m.spec_keys() == Seq::<Seq<char>>::empty(),
            m.spec_vals() == Seq::<V>::empty(),
    {
        let m = StrMap { keys: Vec::new(), vals: Vec::new() };
        assert(m.spec_keys() =~= Seq::<Seq<char>>::empty());
        m
    }

    /// Number of entries.
    pub fn len(&self) -> (n: usize)
        requires
            self.wf(),
        ensures
            n == self.spec_len(),
    {
        self.keys.len()
    }

    /// Whether the map has no entry.
    pub fn is_empty(&self) -> (r: bool)
        requires
            self.wf(),
        ensures
            r == (self.spec_len() == 0),
    {
        self.keys.len() == 0
    }

    /// The index of `key`, if the map holds it.
    pub fn position(&self, key: &str) -> (r: Option<usize>)
        requires
            self.wf(),
        ensures
            match r {
                Some(i) => self.spec_position(key@) == Some(i as int) && i < self.spec_len(),
                None => self.spec_position(key@).is_none(),
            },
    {
        let n = self.keys.len();
        let mut i: usize = 0;
        while i < n
            invariant
                n == self.keys@.len(),
                n == self.spec_keys().len(),
                0 <= i <= n,
                find_key(self.spec_keys(), key@, i as int).is_none(),
            decreases n - i,
        {
            if str_eq(self.keys[i].as_str(), key) {
                proof {
                    assert(self.spec_keys()[i as int] == key@);
                    assert(find_key(self.spec_keys(), key@, i + 1) == Some(i as int));
                    lemma_find_key(self.spec_keys(), key@, n as int);
                    lemma_find_key(self.spec_keys(), key@, i + 1);
                }
                return Some(i);
            }
            proof {
                assert(self.spec_keys()[i as int] == self.keys@[i as int]@);
            }
            i += 1;
        }
        None
    }

    /// Whether the map holds `key`.
    pub fn contains_key(&self, key: &str) -> (r: bool)
        requires
            self.wf(),
        ensures
            r == self.spec_contains(key@),
    {
        self.position(key).is_some()
    }

    /// The value under `key`, if the map holds it.
    pub fn get(&self, key: &str) -> (r: Option<&V>)
        requires
            self.wf(),
        ensures
            match r {
                Some(v) => self.spec_get(key@) == Some(*v),
                None => self.spec_get(key@).is_none(),
            },
    {
        match self.position(key) {
            Some(i) => Some(&self.vals[i]),
            None => None,
        }
    }

    /// The key at index `i`.
    pub fn key_at(&self, i: usize) -> (k: &str)
        requires
            self.wf(),
            i < self.spec_len(),
        ensures
            k@ == self.spec_keys()[i as int],
    {
        self.keys[i].as_str()
    }

    /// The value at index `i`.
    pub fn value_at(&self, i: usize) -> (v: &V)
        requires
            self.wf(),
            i < self.spec_len(),
        ensures
            *v == self.spec_vals()[i as int],
    {
        &self.vals[i]
    }

    /// Mutable access to the value at index `i`. Keys and the other values
    /// stay.
    pub fn value_at_mut(&mut self, i: usize) -> (v: &mut V)
        requires
            old(self).wf(),
            i < old(self).spec_len(),
        ensures
            *v == old(self).spec_vals()[i as int],
            final(self).wf(),
            final(self).spec_keys() == old(self).spec_keys(),
            final(self).spec_vals() == old(self).spec_vals().update(i as int, *final(v)),
    {
        &mut self.vals[i]
    }

    /// Puts `value` under `key`: in place of the value that the key had, or
    /// as a new last entry.
    pub fn insert(&mut self, key: String, value: V)
        requires
            old(self).wf(),
        ensures
            final(self).wf(),
            match old(self).spec_position(key@) {
                Some(i) => {
                    &&& final(self).spec_keys() == old(self).spec_keys()
                    &&& final(self).spec_vals() == old(self).spec_vals().update(i, value)
                },
                None => {
                    &&& final(self).spec_keys() == old(self).spec_keys().push(key@)
                    &&& final(self).spec_vals() == old(self).spec_vals().push(value)
                },
            },
            forall|k: Seq<char>|
                #[trigger] final(self).spec_get(k) == if k == key@ {
                    Some(value)
                } else {
                    old(self).spec_get(k)
                },
    {
        let ghost old_keys = self.spec_keys();
        let ghost old_vals = self.spec_vals();
        match self.position(key.as_str()) {
            Some(i) => {
                self.vals[i] = value;
                proof {
                    assert forall|k: Seq<char>|
                        #[trigger] self.spec_get(k) == if k == key@ {
                            Some(value)
                        } else {
                            old(self).spec_get(k)
                        } by {
                        assert(self.spec_keys() == old_keys);
                        assert(self.spec_vals() == old_vals.update(i as int, value));
                        lemma_find_key(old_keys, k, old_keys.len() as int);
                        lemma_find_key(old_keys, key@, old_keys.len() as int);
                    }
                }
            },
            None => {
                self.keys.push(key);
                self.vals.push(value);
                proof {
                    let new_keys = self.spec_keys();
                    assert(new_keys =~= old_keys.push(key@));
                    lemma_find_key(old_keys, key@, old_keys.len() as int);
                    assert forall|k: Seq<char>|
                        #[trigger] self.spec_get(k) == if k == key@ {
                            Some(value)
                        } else {
                            old(self).spec_get(k)
                        } by {
                        lemma_find_key_prefix(new_keys, old_keys, k, old_keys.len() as int);
                        lemma_find_key(old_keys, k, old_keys.len() as int);
                    }
                }
            },
        }
    }
}

} // verus!
