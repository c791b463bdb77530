//! A small map from string keys to values that remembers the order in which
//! its keys first arrived. Its model is the sequence of its entries, no two
//! of them under one key.

use vstd::prelude::*;
use crate::text::same_text;

verus! {

/// Whether some entry stands under `key`.
pub open spec fn has_key<V>(entries: Seq<(Seq<char>, V)>, key: Seq<char>) -> bool {
    exists|i: int| 0 <= i < entries.len() && (#[trigger] entries[i]).0 == key
}

/// The place of an entry under `key`; meaningful where `has_key` holds.
pub open spec fn index_of<V>(entries: Seq<(Seq<char>, V)>, key: Seq<char>) -> int {
    choose|i: int| 0 <= i < entries.len() && (#[trigger] entries[i]).0 == key
}

/// The value under `key`, if there is one.
pub open spec fn lookup<V>(entries: Seq<(Seq<char>, V)>, key: Seq<char>) -> Option<V> {
    if has_key(entries, key) {
        Some(entries[index_of(entries, key)].1)
    } else {
        None
    }
}

/// `entries` with `value` under `key`: in the place of the old value where
/// the key was known, at the end where it was not.
pub open spec fn upsert<V>(entries: Seq<(Seq<char>, V)>, key: Seq<char>, value: V) -> Seq<
    (Seq<char>, V),
> {
    if has_key(entries, key) {
        entries.update(index_of(entries, key), (key, value))
    } else {
        entries.push((key, value))
    }
}

/// No key occurs twice.
pub open spec fn distinct_keys<V>(entries: Seq<(Seq<char>, V)>) -> bool {
    forall|i: int, j: int|
        0 <= i < j < entries.len() ==> (#[trigger] entries[i]).0 != (#[trigger] entries[j]).0
}

/// What a map holds after the pairs were put into it one by one, in order.
pub open spec fn keyed<V>(pairs: Seq<(Seq<char>, V)>) -> Seq<(Seq<char>, V)>
    decreases pairs.len(),
{
    if pairs.len() == 0 {
        Seq::empty()
    } else {
        upsert(keyed(pairs.drop_last()), pairs.last().0, pairs.last().1)
    }
}

/// The keys, in order.
pub open spec fn keys_of<V>(entries: Seq<(Seq<char>, V)>) -> Seq<Seq<char>> {
    Seq::new(entries.len(), |i: int| entries[i].0)
}

/// Among distinct keys an entry's place is the only place of its key.
pub proof fn lemma_index_unique<V>(entries: Seq<(Seq<char>, V)>, i: int)
    requires
        distinct_keys(entries),
        0 <= i < entries.len(),
    ensures
        has_key(entries, entries[i].0),
        index_of(entries, entries[i].0) == i,
        lookup(entries, entries[i].0) == Some(entries[i].1),
{
    let key = entries[i].0;
    assert(has_key(entries, key));
    let j = index_of(entries, key);
    assert(0 <= j < entries.len() && entries[j].0 == key);
    if j < i {
        assert(entries[j].0 != entries[i].0);
    } else if i < j {
        assert(entries[i].0 != entries[j].0);
    }
}

/// Putting a value under a key keeps the keys distinct, leaves the value
/// there, and changes nothing under any other key.
pub proof fn lemma_upsert<V>(entries: Seq<(Seq<char>, V)>, key: Seq<char>, value: V)
    requires
        distinct_keys(entries),
    ensures
        distinct_keys(upsert(entries, key, value)),
        lookup(upsert(entries, key, value), key) == Some(value),
        forall|other: Seq<char>|
            other != key ==> has_key(upsert(entries, key, value), other) == has_key(
                entries,
                other,
            ) && #[trigger] lookup(upsert(entries, key, value), other) == lookup(entries, other),
        has_key(entries, key) ==> upsert(entries, key, value).len() == entries.len(),
        !has_key(entries, key) ==> upsert(entries, key, value).len() == entries.len() + 1,
        forall|i: int|
            0 <= i < upsert(entries, key, value).len() ==> (#[trigger] upsert(
                entries,
                key,
                value,
            )[i]) == (key, value) || (i < entries.len() && upsert(entries, key, value)[i]
                == entries[i]),
{
    let after = upsert(entries, key, value);
    let at = if has_key(entries, key) {
        index_of(entries, key)
    } else {
        entries.len() as int
    };
    assert(0 <= at < after.len() && after[at] == (key, value));
    assert forall|i: int| 0 <= i < after.len() && i != at implies (#[trigger] after[i])
        == entries[i] && entries[i].0 != key by {
        if has_key(entries, key) {
            if i < at {
                assert(entries[i].0 != entries[at].0);
            } else {
                assert(entries[at].0 != entries[i].0);
            }
        }
    }
    assert forall|i: int, j: int| 0 <= i < j < after.len() implies (#[trigger] after[i]).0 != (
    #[trigger] after[j]).0 by {
        if i != at && j != at {
            assert(entries[i].0 != entries[j].0);
        }
    }
    lemma_index_unique(after, at);
    assert forall|other: Seq<char>| other != key implies has_key(after, other) == has_key(
        entries,
        other,
    ) && #[trigger] lookup(after, other) == lookup(entries, other) by {
        if has_key(entries, other) {
            let i = index_of(entries, other);
            assert(i != at);
            assert(after[i] == entries[i]);
            lemma_index_unique(after, i);
        }
        if has_key(after, other) {
            let i = index_of(after, other);
            assert(i != at);
            assert(after[i] == entries[i]);
            lemma_index_unique(entries, i);
        }
    }
}

/// A map built from pairs has distinct keys.
pub proof fn lemma_keyed_distinct<V>(pairs: Seq<(Seq<char>, V)>)
    ensures
        distinct_keys(keyed(pairs)),
    decreases pairs.len(),
{
    if pairs.len() > 0 {
        lemma_keyed_distinct(pairs.drop_last());
        lemma_upsert(keyed(pairs.drop_last()), pairs.last().0, pairs.last().1);
    }
}

/// Two maps with the same keys in the same places know the same keys, each
/// at the same place.
pub proof fn lemma_same_keys<V>(a: Seq<(Seq<char>, V)>, b: Seq<(Seq<char>, V)>, key: Seq<char>)
    requires
        distinct_keys(a),
        a.len() == b.len(),
        forall|i: int| 0 <= i < a.len() ==> (#[trigger] a[i]).0 == b[i].0,
    ensures
        distinct_keys(b),
        has_key(a, key) == has_key(b, key),
        has_key(a, key) ==> index_of(a, key) == index_of(b, key),
{
    assert forall|i: int, j: int| 0 <= i < j < b.len() implies (#[trigger] b[i]).0 != (
    #[trigger] b[j]).0 by {
        assert(a[i].0 != a[j].0);
    }
    if has_key(a, key) {
        let i = index_of(a, key);
        assert(b[i].0 == key);
        lemma_index_unique(b, i);
    }
    if has_key(b, key) {
        let i = index_of(b, key);
        assert(a[i].0 == key);
        lemma_index_unique(a, i);
    }
}

/// What holds of every pair holds of every entry of the map built from the
/// pairs.
pub proof fn lemma_keyed_all<V>(pairs: Seq<(Seq<char>, V)>, good: spec_fn((Seq<char>, V)) -> bool)
    requires
        forall|j: int| 0 <= j < pairs.len() ==> good(#[trigger] pairs[j]),
    ensures
        forall|i: int| 0 <= i < keyed(pairs).len() ==> good(#[trigger] keyed(pairs)[i]),
    decreases pairs.len(),
{
    if pairs.len() > 0 {
        let front = pairs.drop_last();
        assert forall|j: int| 0 <= j < front.len() implies good(#[trigger] front[j]) by {
            assert(front[j] == pairs[j]);
        }
        lemma_keyed_all(front, good);
        lemma_keyed_distinct(front);
        lemma_upsert(keyed(front), pairs.last().0, pairs.last().1);
        assert(good(pairs[pairs.len() - 1]));
    }
}

/// A map from string keys to values, in the order in which the keys arrived.
pub struct Cache<T> {
    entries: Vec<(String, T)>,
}

impl<T: View> View for Cache<T> {
    type V = Seq<(Seq<char>, T::V)>;

    closed spec fn view(&self) -> Seq<(Seq<char>, T::V)> {
        Seq::new(self.entries@.len(), |i: int| (self.entries@[i].0@, self.entries@[i].1@))
    }
}

impl<T: View> Cache<T> {
    /// No key occurs twice.
    pub closed spec fn wf(&self) -> bool {
        distinct_keys(self@)
    }

    pub proof fn lemma_wf(&self)
        requires
            self.wf(),
        ensures
            distinct_keys(self@),
    {
    }

    /// An empty map.
    pub fn new() -> (cache: Self)
        ensures
            cache.wf(),
            cache@ == Seq::<(Seq<char>, T::V)>::empty(),
    {
        let cache = Cache { entries: Vec::new() };
        assert(cache@ =~= Seq::<(Seq<char>, T::V)>::empty());
        cache
    }

    /// The number of keys.
    pub fn len(&self) -> (count: usize)
        ensures
            count == self@.len(),
    {
        self.entries.len()
    }

    pub fn is_empty(&self) -> (empty: bool)
        ensures
            empty == (self@.len() == 0),
    {
        self.entries.len() == 0
    }

    /// The place of `key`, if it is known.
    pub fn position(&self, key: &str) -> (found: Option<usize>)
        requires
            self.wf(),
        ensures
            found is Some == has_key(self@, key@),
            found matches Some(i) ==> i == index_of(self@, key@) && i < self@.len() && self@[i as int].0
                == key@,
    {
        let mut i: usize = 0;
        while i < self.entries.len()
            invariant
                self.wf(),
                i <= self.entries.len(),
                self@.len() == self.entries.len(),
                forall|j: int| 0 <= j < i ==> (#[trigger] self@[j]).0 != key@,
            decreases self.entries.len() - i,
        {
            assert(self@[i as int].0 == self.entries@[i as int].0@);
            if same_text(self.entries[i].0.as_str(), key) {
                proof {
                    lemma_index_unique(self@, i as int);
                }
                return Some(i);
            }
            i += 1;
        }
        None
    }

    pub fn contains_key(&self, key: &str) -> (known: bool)
        requires
            self.wf(),
        ensures
            known == has_key(self@, key@),
    {
        self.position(key).is_some()
    }

    /// The value under `key`.
    pub fn get(&self, key: &str) -> (found: Option<&T>)
        requires
            self.wf(),
        ensures
            found is Some == has_key(self@, key@),
            found matches Some(value) ==> lookup(self@, key@) == Some(value@),
    {
        match self.position(key) {
            Some(i) => Some(&self.entries[i].1),
            None => None,
        }
    }

    /// The key at place `i`.
    pub fn key_at(&self, i: usize) -> (key: &str)
        requires
            i < self@.len(),
        ensures
            key@ == self@[i as int].0,
    {
        self.entries[i].0.as_str()
    }

    /// The value at place `i`.
    pub fn value_at(&self, i: usize) -> (value: &T)
        requires
            i < self@.len(),
        ensures
            value@ == self@[i as int].1,
    {
        &self.entries[i].1
    }

    /// Puts `value` under `key`, in the place of the value that was there
    /// if there was one.
    pub fn insert(&mut self, key: String, value: T)
        requires
            old(self).wf(),
        ensures
            final(self).wf(),
            final(self)@ == upsert(old(self)@, key@, value@),
    {
        proof {
            lemma_upsert(self@, key@, value@);
        }
        let ghost before = self@;
        match self.position(key.as_str()) {
            Some(i) => {
                self.entries.set(i, (key, value));
                assert(self@ =~= before.update(i as int, (key@, value@)));
            },
            None => {
                self.entries.push((key, value));
                assert(self@ =~= before.push((key@, value@)));
            },
        }
    }

    /// Puts `value` in the place of the value at place `i`, under the same
    /// key.
    pub fn replace_at(&mut self, i: usize, value: T)
        requires
            old(self).wf(),
            i < old(self)@.len(),
        ensures
            final(self).wf(),
            final(self)@ == old(self)@.update(i as int, (old(self)@[i as int].0, value@)),
    {
        let ghost before = self@;
        let key = self.entries[i].0.clone();
        self.entries.set(i, (key, value));
        assert(self@ =~= before.update(i as int, (before[i as int].0, value@)));
        assert forall|a: int, b: int| 0 <= a < b < self@.len() implies (#[trigger] self@[a]).0 != (
        #[trigger] self@[b]).0 by {
            assert(before[a].0 != before[b].0);
        }
    }

    /// Forgets every entry.
    pub fn clear(&mut self)
        ensures
            final(self).wf(),
            final(self)@ == Seq::<(Seq<char>, T::V)>::empty(),
    {
        self.entries.clear();
        assert(self@ =~= Seq::<(Seq<char>, T::V)>::empty());
    }

    /// The keys, in order.
    pub fn keys(&self) -> (names: Vec<String>)
        ensures
            names@.len() == self@.len(),
            forall|i: int| 0 <= i < names@.len() ==> (#[trigger] names@[i])@ == self@[i].0,
    {
        let mut names: Vec<String> = Vec::new();
        let mut i: usize = 0;
        while i < self.entries.len()
            invariant
                i <= self.entries.len(),
                names@.len() == i,
                forall|j: int| 0 <= j < i ==> (#[trigger] names@[j])@ == self@[j].0,
            decreases self.entries.len() - i,
        {
            names.push(self.entries[i].0.clone());
            i += 1;
        }
        names
    }
}

} // verus!
