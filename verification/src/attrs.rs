//! The normalized map: job key to attribute name to list of values.
//!
//! Both levels are lists of entries with distinct keys that keep the order
//! in which the keys were first inserted. Their model is the sequence of
//! `(key, value)` pairs, each taken by its own model.
use crate::text::str_eq;
use vstd::prelude::*;

verus! {

/// Whether `k` is the key of an entry of `m`.
pub open spec fn has_key<V>(m: Seq<(Seq<char>, V)>, k: Seq<char>) -> bool {
    exists|i: int| 0 <= i < m.len() && (#[trigger] m[i]).0 == k
}

/// An index at which `m` holds the key `k`, where there is one.
pub open spec fn index_of<V>(m: Seq<(Seq<char>, V)>, k: Seq<char>) -> int {
    choose|i: int| 0 <= i < m.len() && (#[trigger] m[i]).0 == k
}

/// The value that `m` holds for `k`.
pub open spec fn lookup<V>(m: Seq<(Seq<char>, V)>, k: Seq<char>) -> Option<V> {
    if has_key(m, k) {
        Some(m[index_of(m, k)].1)
    } else {
        None
    }
}

/// `m` with `v` as the value of `k`: in the place of the old value where
/// there was one, at the end otherwise.
pub open spec fn put<V>(m: Seq<(Seq<char>, V)>, k: Seq<char>, v: V) -> Seq<(Seq<char>, V)> {
    if has_key(m, k) {
        m.update(index_of(m, k), (k, v))
    } else {
        m.push((k, v))
    }
}

/// `m` without the entry of `k`.
pub open spec fn delete<V>(m: Seq<(Seq<char>, V)>, k: Seq<char>) -> Seq<(Seq<char>, V)> {
    if has_key(m, k) {
        m.remove(index_of(m, k))
    } else {
        m
    }
}

/// Whether no key occurs twice in `m`.
pub open spec fn keys_unique<V>(m: Seq<(Seq<char>, V)>) -> bool {
    forall|i: int, j: int|
        0 <= i < m.len() && 0 <= j < m.len() && i != j ==> (#[trigger] m[i]).0 != (#[trigger] m[j]).0
}

/// With distinct keys, the index of a key is the place where it stands.
pub proof fn lemma_index_of<V>(m: Seq<(Seq<char>, V)>, i: int)
    requires
        keys_unique(m),
        0 <= i < m.len(),
    ensures
        has_key(m, m[i].0),
        index_of(m, m[i].0) == i,
        lookup(m, m[i].0) == Some(m[i].1),
{
}

/// Setting a value keeps the keys distinct and is what a later lookup
/// finds; other keys keep what they had.
pub proof fn lemma_put<V>(m: Seq<(Seq<char>, V)>, k: Seq<char>, v: V)
    requires
        keys_unique(m),
    ensures
        keys_unique(put(m, k, v)),
        lookup(put(m, k, v), k) == Some(v),
        forall|other: Seq<char>| other != k ==> lookup(put(m, k, v), other) == lookup(m, other),
{
    let p = put(m, k, v);
    if has_key(m, k) {
        let at = index_of(m, k);
        assert(p[at].0 == k);
        lemma_index_of(p, at);
        assert forall|other: Seq<char>| other != k implies lookup(p, other) == lookup(
            m,
            other,
        ) by {
            if has_key(m, other) {
                let j = index_of(m, other);
                assert(p[j] == m[j]);
                lemma_index_of(p, j);
            } else if has_key(p, other) {
                let j = index_of(p, other);
                assert(m[j] == p[j]);
            }
        }
    } else {
        assert forall|i: int, j: int|
            0 <= i < p.len() && 0 <= j < p.len() && i != j implies (#[trigger] p[i]).0 != (
        #[trigger] p[j]).0 by {
            if i < m.len() {
                assert(p[i] == m[i]);
            }
            if j < m.len() {
                assert(p[j] == m[j]);
            }
        }
        assert(p[m.len() as int].0 == k);
        lemma_index_of(p, m.len() as int);
        assert forall|other: Seq<char>| other != k implies lookup(p, other) == lookup(
            m,
            other,
        ) by {
            if has_key(m, other) {
                let j = index_of(m, other);
                assert(p[j] == m[j]);
                lemma_index_of(p, j);
            } else if has_key(p, other) {
                let j = index_of(p, other);
                assert(m[j] == p[j]);
            }
        }
    }
}

/// Removing a key keeps the keys distinct and leaves nothing to look up
/// for it; other keys keep what they had.
pub proof fn lemma_delete<V>(m: Seq<(Seq<char>, V)>, k: Seq<char>)
    requires
        keys_unique(m),
    ensures
        keys_unique(delete(m, k)),
        !has_key(delete(m, k), k),
        forall|other: Seq<char>| other != k ==> lookup(delete(m, k), other) == lookup(m, other),
{
    let d = delete(m, k);
    if has_key(m, k) {
        let at = index_of(m, k);
        assert forall|i: int| 0 <= i < d.len() implies #[trigger] d[i] == m[if i < at {
            i
        } else {
            i + 1
        }] by {}
        assert forall|i: int, j: int|
            0 <= i < d.len() && 0 <= j < d.len() && i != j implies (#[trigger] d[i]).0 != (
        #[trigger] d[j]).0 by {
            let a = if i < at { i } else { i + 1 };
            let b = if j < at { j } else { j + 1 };
            assert(d[i] == m[a]);
            assert(d[j] == m[b]);
        }
        if has_key(d, k) {
            let j = index_of(d, k);
            let b = if j < at { j } else { j + 1 };
            assert(d[j] == m[b]);
            assert(false);
        }
        assert forall|other: Seq<char>| other != k implies lookup(d, other) == lookup(
            m,
            other,
        ) by {
            if has_key(m, other) {
                let j = index_of(m, other);
                let a = if j < at { j } else { j - 1 };
                assert(d[a] == m[j]);
                lemma_index_of(d, a);
            } else if has_key(d, other) {
                let j = index_of(d, other);
                let b = if j < at { j } else { j + 1 };
                assert(d[j] == m[b]);
            }
        }
    }
}

/// A list of entries with distinct string keys, in the order in which the
/// keys were first inserted.
#[derive(Debug, PartialEq, Eq)]
pub struct KeyedList<V> {
    entries: Vec<(String, V)>,
}

/// The attributes of one job: attribute name to list of values.
pub type Attributes = KeyedList<Vec<String>>;

/// The normalized map: job key to attributes.
pub type NormalizedMap = KeyedList<Attributes>;

impl<V: DeepView> View for KeyedList<V> {
    type V = Seq<(Seq<char>, V::V)>;

    closed spec fn view(&self) -> Seq<(Seq<char>, V::V)> {
        Seq::new(
            self.entries@.len(),
            |i: int| (self.entries@[i].0@, self.entries@[i].1.deep_view()),
        )
    }
}

impl<V: DeepView> DeepView for KeyedList<V> {
    type V = Seq<(Seq<char>, V::V)>;

    open spec fn deep_view(&self) -> Seq<(Seq<char>, V::V)> {
        self@
    }
}

impl<V> KeyedList<V> {
    #[verifier::type_invariant]
    spec fn distinct(self) -> bool {
        forall|i: int, j: int|
            0 <= i < self.entries@.len() && 0 <= j < self.entries@.len() && i != j ==> (
            #[trigger] self.entries@[i]).0@ != (#[trigger] self.entries@[j]).0@
    }
}

impl<V: DeepView> KeyedList<V> {
    /// What the invariant of the type says of the model.
    fn unique(&self)
        ensures
            keys_unique(self@),
    {
        proof {
            use_type_invariant(self);
            let m = self@;
            assert forall|i: int, j: int|
                0 <= i < m.len() && 0 <= j < m.len() && i != j implies (#[trigger] m[i]).0 != (
            #[trigger] m[j]).0 by {
                assert(m[i].0 == self.entries@[i].0@);
                assert(m[j].0 == self.entries@[j].0@);
            }
        }
    }

    /// The empty list.
    pub fn new() -> (r: Self)
        ensures
            r@ == Seq::<(Seq<char>, V::V)>::empty(),
    {
        let r = KeyedList { entries: Vec::new() };
        assert(r@ =~= Seq::<(Seq<char>, V::V)>::empty());
        r
    }

    /// The number of entries. No key occurs twice among them.
    pub fn len(&self) -> (r: usize)
        ensures
            r == self@.len(),
            keys_unique(self@),
    {
        self.unique();
        self.entries.len()
    }

    /// Whether there is no entry.
    pub fn is_empty(&self) -> (r: bool)
        ensures
            r == (self@.len() == 0),
    {
        self.entries.len() == 0
    }

    /// The place of `key`, where it is present.
    pub fn position(&self, key: &str) -> (r: Option<usize>)
        ensures
            match r {
                Some(i) => i < self@.len() && self@[i as int].0 == key@ && has_key(self@, key@)
                    && index_of(self@, key@) == i,
                None => !has_key(self@, key@),
            },
    {
        let mut i: usize = 0;
        while i < self.entries.len()
            invariant
                i <= self.entries@.len(),
                forall|j: int| 0 <= j < i ==> (#[trigger] self@[j]).0 != key@,
            decreases self.entries@.len() - i,
        {
            if str_eq(self.entries[i].0.as_str(), key) {
                self.unique();
                proof {
                    assert(self@[i as int].0 == key@);
                    lemma_index_of(self@, i as int);
                }
                return Some(i);
            }
            i += 1;
        }
        None
    }

    /// Whether `key` is present.
    pub fn contains_key(&self, key: &str) -> (r: bool)
        ensures
            r == has_key(self@, key@),
    {
        self.position(key).is_some()
    }

    /// The value of `key`.
    pub fn get(&self, key: &str) -> (r: Option<&V>)
        ensures
            r.deep_view() == lookup(self@, key@),
    {
        match self.position(key) {
            Some(i) => Some(&self.entries[i].1),
            None => None,
        }
    }

    /// The key at place `i`.
    pub fn key_at(&self, i: usize) -> (r: &String)
        requires
            i < self@.len(),
        ensures
            r@ == self@[i as int].0,
    {
        &self.entries[i].0
    }

    /// The value at place `i`.
    pub fn value_at(&self, i: usize) -> (r: &V)
        requires
            i < self@.len(),
        ensures
            r.deep_view() == self@[i as int].1,
    {
        &self.entries[i].1
    }

    /// Sets the value of `key`: in the place of the old value where there
    /// was one, at the end otherwise.
    pub fn insert(&mut self, key: String, value: V)
        ensures
            final(self)@ == put(old(self)@, key@, value.deep_view()),
    {
        proof {
            use_type_invariant(&*self);
        }
        let ghost before = self@;
        let at = self.position(key.as_str());
        let mut entries: Vec<(String, V)> = Vec::new();
        core::mem::swap(&mut self.entries, &mut entries);
        match at {
            Some(i) => {
                entries.set(i, (key, value));
            },
            None => {
                assert forall|j: int| 0 <= j < entries@.len() implies (#[trigger] entries@[j]).0@
                    != key@ by {
                    assert(before[j].0 == entries@[j].0@);
                }
                entries.push((key, value));
            },
        }
        core::mem::swap(&mut self.entries, &mut entries);
        assert(self@ =~= put(before, key@, value.deep_view()));
    }

    /// Takes the entry of `key` out of the list.
    pub fn remove(&mut self, key: &str) -> (r: Option<V>)
        ensures
            final(self)@ == delete(old(self)@, key@),
            r.deep_view() == lookup(old(self)@, key@),
    {
        proof {
            use_type_invariant(&*self);
        }
        let ghost before = self@;
        match self.position(key) {
            Some(i) => {
                let mut entries: Vec<(String, V)> = Vec::new();
                core::mem::swap(&mut self.entries, &mut entries);
                let entry = entries.remove(i);
                core::mem::swap(&mut self.entries, &mut entries);
                assert(self@ =~= before.remove(i as int));
                Some(entry.1)
            },
            None => None,
        }
    }

    /// Puts `value` in place `i` and returns what was there.
    pub fn replace_at(&mut self, i: usize, value: V) -> (r: V)
        requires
            i < old(self)@.len(),
        ensures
            final(self)@ == old(self)@.update(
                i as int,
                (old(self)@[i as int].0, value.deep_view()),
            ),
            r.deep_view() == old(self)@[i as int].1,
    {
        proof {
            use_type_invariant(&*self);
        }
        let ghost before = self@;
        let mut entries: Vec<(String, V)> = Vec::new();
        core::mem::swap(&mut self.entries, &mut entries);
        let entry = entries.remove(i);
        let ghost key = entry.0@;
        entries.insert(i, (entry.0, value));
        core::mem::swap(&mut self.entries, &mut entries);
        assert(self@ =~= before.update(i as int, (key, value.deep_view())));
        entry.1
    }
}

} // verus!
