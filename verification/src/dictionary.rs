//! A map from keys to values that is kept as a list of entries, for keys that
//! can only be compared.

use vstd::prelude::*;

use crate::identity::Identity;

verus! {

/// A key of a dictionary: a value that stands for a mathematical one, and
/// that can be compared with another key.
pub trait Key: Sized {
    /// What keys are as mathematical values.
    type Model;

    /// The mathematical value that the key stands for.
    spec fn model(&self) -> Self::Model;

    /// Whether two keys stand for the same value.
    fn same(&self, other: &Self) -> (same: bool)
        ensures
            same == (self.model() == other.model()),
    ;
}

impl Key for Identity {
    type Model = Identity;

    open spec fn model(&self) -> Identity {
        *self
    }

    fn same(&self, other: &Identity) -> (same: bool) {
        self.same_bytes(other)
    }
}

impl Key for String {
    type Model = Seq<char>;

    open spec fn model(&self) -> Seq<char> {
        self@
    }

    fn same(&self, other: &String) -> (same: bool) {
        *self == *other
    }
}

/// The map that a sequence of entries stands for: each entry is written in
/// turn.
pub open spec fn entries_map<K: Key, V>(entries: Seq<(K, V)>) -> Map<K::Model, V>
    decreases entries.len(),
{
    if entries.len() == 0 {
        Map::empty()
    } else {
        entries_map(entries.drop_last()).insert(entries.last().0.model(), entries.last().1)
    }
}

/// No key has two entries.
pub open spec fn distinct_keys<K: Key, V>(entries: Seq<(K, V)>) -> bool {
    forall|i: int, j: int|
        0 <= i < entries.len() && 0 <= j < entries.len() && i != j ==> entries[i].0.model()
            != entries[j].0.model()
}

/// The map of a sequence of entries holds the keys of the entries and no
/// others, and it is finite.
pub proof fn lemma_entries_map_domain<K: Key, V>(entries: Seq<(K, V)>)
    ensures
        entries_map(entries).dom().finite(),
        forall|key: K::Model|
            entries_map(entries).contains_key(key) <==> exists|i: int|
                0 <= i < entries.len() && #[trigger] entries[i].0.model() == key,
    decreases entries.len(),
{
    if entries.len() > 0 {
        let front = entries.drop_last();
        lemma_entries_map_domain(front);
        assert forall|key: K::Model|
            entries_map(entries).contains_key(key) <==> exists|i: int|
                0 <= i < entries.len() && #[trigger] entries[i].0.model() == key by {
            if entries_map(entries).contains_key(key) {
                if key == entries.last().0.model() {
                    assert(entries[entries.len() - 1].0.model() == key);
                } else {
                    let i = choose|i: int|
                        0 <= i < front.len() && #[trigger] front[i].0.model() == key;
                    assert(entries[i].0.model() == key);
                }
            }
            if exists|i: int| 0 <= i < entries.len() && #[trigger] entries[i].0.model() == key {
                let i = choose|i: int|
                    0 <= i < entries.len() && #[trigger] entries[i].0.model() == key;
                if i < front.len() {
                    assert(front[i].0.model() == key);
                }
            }
        }
    }
}

/// Where no key has two entries, the map holds each entry's value under the
/// entry's key.
pub proof fn lemma_entries_map_value<K: Key, V>(entries: Seq<(K, V)>, i: int)
    requires
        distinct_keys(entries),
        0 <= i < entries.len(),
    ensures
        entries_map(entries).contains_key(entries[i].0.model()),
        entries_map(entries)[entries[i].0.model()] == entries[i].1,
    decreases entries.len(),
{
    if i < entries.len() - 1 {
        let front = entries.drop_last();
        assert(front[i] == entries[i]);
        assert(entries[i].0.model() != entries[entries.len() - 1].0.model());
        assert(distinct_keys(front)) by {
            assert forall|a: int, b: int|
                0 <= a < front.len() && 0 <= b < front.len() && a != b implies front[a].0.model()
                != front[b].0.model() by {
                assert(front[a] == entries[a] && front[b] == entries[b]);
            }
        }
        lemma_entries_map_value(front, i);
    }
}

/// Where no key has two entries, replacing an entry by one with the same key
/// writes the new value into the map.
pub proof fn lemma_entries_map_update<K: Key, V>(entries: Seq<(K, V)>, i: int, key: K, value: V)
    requires
        distinct_keys(entries),
        0 <= i < entries.len(),
        key.model() == entries[i].0.model(),
    ensures
        distinct_keys(entries.update(i, (key, value))),
        entries_map(entries.update(i, (key, value))) == entries_map(entries).insert(
            key.model(),
            value,
        ),
{
    let updated = entries.update(i, (key, value));
    assert(distinct_keys(updated)) by {
        assert forall|a: int, b: int|
            0 <= a < updated.len() && 0 <= b < updated.len() && a != b implies updated[a].0.model()
            != updated[b].0.model() by {
            assert(updated[a].0.model() == entries[a].0.model());
            assert(updated[b].0.model() == entries[b].0.model());
        }
    }
    lemma_entries_map_domain(entries);
    lemma_entries_map_domain(updated);
    let wanted = entries_map(entries).insert(key.model(), value);
    assert forall|k: K::Model| entries_map(updated).contains_key(k) <==> wanted.contains_key(
        k,
    ) by {
        if entries_map(updated).contains_key(k) {
            let j = choose|j: int| 0 <= j < updated.len() && #[trigger] updated[j].0.model() == k;
            assert(entries[j].0.model() == k);
        }
        if wanted.contains_key(k) {
            if k == key.model() {
                assert(updated[i].0.model() == k);
            } else {
                let j = choose|j: int|
                    0 <= j < entries.len() && #[trigger] entries[j].0.model() == k;
                assert(updated[j].0.model() == k);
            }
        }
    }
    assert forall|k: K::Model| entries_map(updated).contains_key(k) implies entries_map(
        updated,
    )[k] == wanted[k] by {
        let j = choose|j: int| 0 <= j < updated.len() && #[trigger] updated[j].0.model() == k;
        lemma_entries_map_value(updated, j);
        if j != i {
            lemma_entries_map_value(entries, j);
        }
    }
    assert(entries_map(updated) =~= wanted);
}

/// Where no key has two entries, taking an entry out takes its key out of
/// the map.
pub proof fn lemma_entries_map_remove<K: Key, V>(entries: Seq<(K, V)>, i: int)
    requires
        distinct_keys(entries),
        0 <= i < entries.len(),
    ensures
        distinct_keys(entries.remove(i)),
        entries_map(entries.remove(i)) == entries_map(entries).remove(entries[i].0.model()),
{
    let key = entries[i].0.model();
    let rest = entries.remove(i);
    assert(distinct_keys(rest)) by {
        assert forall|a: int, b: int|
            0 <= a < rest.len() && 0 <= b < rest.len() && a != b implies rest[a].0.model()
            != rest[b].0.model() by {
            let a0 = if a < i { a } else { a + 1 };
            let b0 = if b < i { b } else { b + 1 };
            assert(rest[a] == entries[a0] && rest[b] == entries[b0]);
        }
    }
    lemma_entries_map_domain(entries);
    lemma_entries_map_domain(rest);
    let wanted = entries_map(entries).remove(key);
    assert forall|k: K::Model| entries_map(rest).contains_key(k) <==> wanted.contains_key(k) by {
        if entries_map(rest).contains_key(k) {
            let j = choose|j: int| 0 <= j < rest.len() && #[trigger] rest[j].0.model() == k;
            let j0 = if j < i { j } else { j + 1 };
            assert(rest[j] == entries[j0]);
            assert(entries[j0].0.model() == k);
        }
        if wanted.contains_key(k) {
            let j = choose|j: int| 0 <= j < entries.len() && #[trigger] entries[j].0.model() == k;
            let j1 = if j < i { j } else { j - 1 };
            assert(rest[j1] == entries[j]);
            assert(rest[j1].0.model() == k);
        }
    }
    assert forall|k: K::Model| entries_map(rest).contains_key(k) implies entries_map(rest)[k]
        == wanted[k] by {
        let j = choose|j: int| 0 <= j < rest.len() && #[trigger] rest[j].0.model() == k;
        let j0 = if j < i { j } else { j + 1 };
        assert(rest[j] == entries[j0]);
        lemma_entries_map_value(rest, j);
        lemma_entries_map_value(entries, j0);
    }
    assert(entries_map(rest) =~= wanted);
}

/// A map from keys to values.
pub struct Dictionary<K: Key, V> {
    entries: Vec<(K, V)>,
}

impl<K: Key, V> View for Dictionary<K, V> {
    type V = Map<K::Model, V>;

    closed spec fn view(&self) -> Map<K::Model, V> {
        entries_map(self.entries@)
    }
}

impl<K: Key, V> Dictionary<K, V> {
    /// No key has two entries.
    pub closed spec fn wf(&self) -> bool {
        distinct_keys(self.entries@)
    }

    /// A dictionary holds finitely many entries.
    pub proof fn lemma_finite(&self)
        ensures
            self@.dom().finite(),
    {
        lemma_entries_map_domain(self.entries@);
    }

    /// The dictionary without entries.
    pub fn new() -> (dictionary: Dictionary<K, V>)
        ensures
            dictionary.wf(),
            dictionary@ == Map::<K::Model, V>::empty(),
    {
        Dictionary { entries: Vec::new() }
    }

    /// Where the entry of `key` stands, if it has one.
    fn position(&self, key: &K) -> (position: Option<usize>)
        requires
            self.wf(),
        ensures
            match position {
                Some(i) => i < self.entries@.len() && self.entries@[i as int].0.model()
                    == key.model(),
                None => !self@.contains_key(key.model()),
            },
    {
        let mut i: usize = 0;
        while i < self.entries.len()
            invariant
                i <= self.entries@.len(),
                forall|j: int| 0 <= j < i ==> self.entries@[j].0.model() != key.model(),
            decreases self.entries@.len() - i,
        {
            if self.entries[i].0.same(key) {
                return Some(i);
            }
            i += 1;
        }
        proof {
            lemma_entries_map_domain(self.entries@);
        }
        None
    }

    /// The value written under `key`, if there is one.
    pub fn get(&self, key: &K) -> (value: Option<&V>)
        requires
            self.wf(),
        ensures
            value == (if self@.contains_key(key.model()) {
                Some(&self@[key.model()])
            } else {
                None
            }),
    {
        match self.position(key) {
            Some(i) => {
                proof {
                    lemma_entries_map_value(self.entries@, i as int);
                }
                Some(&self.entries[i].1)
            },
            None => None,
        }
    }

    /// Writes `value` under `key`, over whatever stood there.
    pub fn put(&mut self, key: K, value: V)
        requires
            old(self).wf(),
        ensures
            final(self).wf(),
            final(self)@ == old(self)@.insert(key.model(), value),
    {
        match self.position(&key) {
            Some(i) => {
                proof {
                    lemma_entries_map_update(self.entries@, i as int, key, value);
                }
                self.entries.set(i, (key, value));
            },
            None => {
                proof {
                    lemma_entries_map_domain(self.entries@);
                    assert(self.entries@.push((key, value)).drop_last() =~= self.entries@);
                }
                self.entries.push((key, value));
            },
        }
    }

    /// Takes out what stands under `key`, if anything does.
    pub fn remove(&mut self, key: &K)
        requires
            old(self).wf(),
        ensures
            final(self).wf(),
            final(self)@ == old(self)@.remove(key.model()),
    {
        match self.position(key) {
            Some(i) => {
                proof {
                    lemma_entries_map_remove(self.entries@, i as int);
                }
                let _ = self.entries.remove(i);
            },
            None => {
                proof {
                    assert(self@.remove(key.model()) =~= self@);
                }
            },
        }
    }
}

} // verus!
