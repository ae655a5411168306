//! What a fetch found, filed by key: in a hash map where the key is a number,
//! and in a map over keys that can only be compared where it is not.

use crate::keys::Key;
use std::collections::HashMap;
use vstd::prelude::*;

verus! {

broadcast use vstd::std_specs::hash::group_hash_axioms;

/// What a fetch found, filed by key. Rows are put in as they are read, and
/// values are taken out as they are handed on.
pub trait Fetched<K, V>: Sized {
    /// What is filed, as a map.
    spec fn found(&self) -> Map<K, V>;

    /// Takes out what is filed under `key`, if anything is.
    fn take(&mut self, key: &K) -> (value: Option<V>)
        ensures
            final(self).found() == old(self).found().remove(*key),
            value == if old(self).found().contains_key(*key) {
                Some(old(self).found()[*key])
            } else {
                None
            },
    ;

    /// Files `value` under `key`, in place of what was there.
    fn put(&mut self, key: K, value: V)
        ensures
            final(self).found() == old(self).found().insert(key, value),
    ;
}

impl<V> Fetched<u32, V> for HashMap<u32, V> {
    open spec fn found(&self) -> Map<u32, V> {
        self@
    }

    fn take(&mut self, key: &u32) -> (value: Option<V>) {
        self.remove(key)
    }

    fn put(&mut self, key: u32, value: V) {
        self.insert(key, value);
    }
}

/// A finite map that keeps its entries in the order in which their keys first
/// arrived. It stands where a hash map would, for keys that are only known to
/// be comparable.
pub struct KeyMap<K, V> {
    entries: Vec<(K, V)>,
}

impl<K: Key, V> Fetched<K, V> for KeyMap<K, V> {
    open spec fn found(&self) -> Map<K, V> {
        self@
    }

    fn take(&mut self, key: &K) -> (value: Option<V>) {
        self.remove(key)
    }

    fn put(&mut self, key: K, value: V) {
        self.insert(key, value);
    }
}

/// The keys of a sequence of entries.
pub open spec fn entry_keys<K, V>(entries: Seq<(K, V)>) -> Seq<K> {
    entries.map_values(|entry: (K, V)| entry.0)
}

/// The map that a sequence of entries with distinct keys stands for.
pub open spec fn entry_map<K, V>(entries: Seq<(K, V)>) -> Map<K, V> {
    Map::new(
        |key: K| entry_keys(entries).contains(key),
        |key: K| entries[entry_keys(entries).index_of(key)].1,
    )
}

/// In a sequence of entries with distinct keys, each entry is what the map
/// holds at its key.
pub proof fn lemma_entry_map<K, V>(entries: Seq<(K, V)>)
    requires
        entry_keys(entries).no_duplicates(),
    ensures
        forall|i: int|
            0 <= i < entries.len() ==> entry_map(entries).contains_key(#[trigger] entries[i].0)
                && entry_map(entries)[entries[i].0] == entries[i].1,
        forall|key: K| #[trigger]
            entry_map(entries).contains_key(key) <==> entry_keys(entries).contains(key),
{
    let keys = entry_keys(entries);
    assert forall|i: int| 0 <= i < entries.len() implies entry_map(entries).contains_key(
        #[trigger] entries[i].0,
    ) && entry_map(entries)[entries[i].0] == entries[i].1 by {
        assert(keys[i] == entries[i].0);
        assert(keys[keys.index_of(entries[i].0)] == keys[i]);
    }
}

/// Putting an entry in the place of the entry with its key, or behind all
/// entries where no entry has its key, puts its value at its key in the map
/// and leaves the keys distinct.
proof fn lemma_put<K, V>(before: Seq<(K, V)>, after: Seq<(K, V)>, slot: int)
    requires
        entry_keys(before).no_duplicates(),
        0 <= slot <= before.len(),
        after.len() == if slot < before.len() {
            before.len()
        } else {
            before.len() + 1
        },
        forall|i: int| 0 <= i < before.len() && i != slot ==> after[i] == before[i],
        slot < before.len() ==> after[slot].0 == before[slot].0,
        slot == before.len() ==> !entry_keys(before).contains(after[slot].0),
    ensures
        entry_keys(after).no_duplicates(),
        entry_keys(after) == if slot < before.len() {
            entry_keys(before)
        } else {
            entry_keys(before).push(after[slot].0)
        },
        entry_map(after) == entry_map(before).insert(after[slot].0, after[slot].1),
{
    let key = after[slot].0;
    if slot < before.len() {
        assert(entry_keys(after) =~= entry_keys(before));
    } else {
        assert(entry_keys(after) =~= entry_keys(before).push(key));
    }
    lemma_entry_map(before);
    lemma_entry_map(after);
    let target = entry_map(before).insert(key, after[slot].1);
    assert forall|k: K| entry_map(after).contains_key(k) == target.contains_key(k) by {
        if k == key {
            assert(entry_keys(after)[slot] == k);
        } else if entry_keys(before).contains(k) {
            assert(entry_keys(after)[entry_keys(before).index_of(k)] == k);
        } else if entry_keys(after).contains(k) {
            assert(entry_keys(before)[entry_keys(after).index_of(k)] == k);
        }
    }
    assert forall|k: K| entry_map(after).contains_key(k) implies entry_map(after)[k]
        == target[k] by {
        let i = entry_keys(after).index_of(k);
        assert(after[i].0 == k);
        if k != key {
            assert(before[i].0 == k);
        }
    }
    assert(entry_map(after) =~= target);
}

/// Taking an entry out takes its key out of the map and leaves the keys
/// distinct.
proof fn lemma_taken<K, V>(before: Seq<(K, V)>, slot: int)
    requires
        entry_keys(before).no_duplicates(),
        0 <= slot < before.len(),
    ensures
        entry_keys(before.remove(slot)).no_duplicates(),
        entry_keys(before.remove(slot)) == entry_keys(before).remove(slot),
        entry_map(before.remove(slot)) == entry_map(before).remove(before[slot].0),
        entry_map(before)[before[slot].0] == before[slot].1,
{
    let after = before.remove(slot);
    let key = before[slot].0;
    assert(entry_keys(after) =~= entry_keys(before).remove(slot));
    assert(entry_keys(before)[slot] == key);
    lemma_entry_map(before);
    lemma_entry_map(after);
    let target = entry_map(before).remove(key);
    assert forall|k: K| entry_map(after).contains_key(k) == target.contains_key(k) by {
        if entry_keys(after).contains(k) {
            let i = entry_keys(after).index_of(k);
            let j = if i < slot { i } else { i + 1 };
            assert(entry_keys(before)[j] == k);
        }
        if k != key && entry_keys(before).contains(k) {
            let j = entry_keys(before).index_of(k);
            let i = if j < slot { j } else { j - 1 };
            assert(entry_keys(after)[i] == k);
        }
    }
    assert forall|k: K| entry_map(after).contains_key(k) implies entry_map(after)[k]
        == target[k] by {
        let i = entry_keys(after).index_of(k);
        let j = if i < slot { i } else { i + 1 };
        assert(after[i].0 == k);
        assert(before[j] == after[i]);
    }
    assert(entry_map(after) =~= target);
}

impl<K, V> View for KeyMap<K, V> {
    type V = Map<K, V>;

    closed spec fn view(&self) -> Map<K, V> {
        entry_map(self.entries@)
    }
}

impl<K, V> KeyMap<K, V> {
    #[verifier::type_invariant]
    spec fn distinct_keys(&self) -> bool {
        entry_keys(self.entries@).no_duplicates()
    }

    /// The keys in the order in which they first arrived.
    pub closed spec fn key_order(&self) -> Seq<K> {
        entry_keys(self.entries@)
    }
}

impl<K: Key, V> KeyMap<K, V> {
    /// The empty map.
    pub fn new() -> (map: Self)
        ensures
            map@ == Map::<K, V>::empty(),
            map.key_order() == Seq::<K>::empty(),
    {
        KeyMap { entries: Vec::new() }
    }

    /// The number of keys.
    pub fn len(&self) -> (count: usize)
        ensures
            count == self@.dom().len(),
            count == self.key_order().len(),
            self@.dom().finite(),
    {
        proof {
            use_type_invariant(self);
            self.lemma_dom();
            self.key_order().unique_seq_to_set();
        }
        self.entries.len()
    }

    proof fn lemma_dom(&self)
        ensures
            self@.dom() =~= self.key_order().to_set(),
            self@.dom().finite(),
    {
        vstd::seq_lib::seq_to_set_is_finite(self.key_order());
    }

    /// Where `key` sits among the entries, if it is there.
    fn position(&self, key: &K) -> (at: Option<usize>)
        ensures
            match at {
                Some(i) => i < self.entries.len() && self.entries[i as int].0 == *key,
                None => !entry_keys(self.entries@).contains(*key),
            },
    {
        let mut i: usize = 0;
        while i < self.entries.len()
            invariant
                i <= self.entries.len(),
                forall|j: int| 0 <= j < i ==> self.entries[j].0 != *key,
            decreases self.entries.len() - i,
        {
            if self.entries[i].0.key_eq(key) {
                return Some(i);
            }
            i += 1;
        }
        proof {
            let keys = entry_keys(self.entries@);
            if keys.contains(*key) {
                let j = keys.index_of(*key);
                assert(self.entries[j].0 == keys[j]);
            }
        }
        None
    }

    /// Whether the map holds a value at `key`.
    pub fn contains_key(&self, key: &K) -> (found: bool)
        ensures
            found == self@.contains_key(*key),
    {
        let at = self.position(key);
        proof {
            if let Some(i) = at {
                assert(entry_keys(self.entries@)[i as int] == *key);
            }
        }
        at.is_some()
    }

    /// The value at `key`, if there is one.
    pub fn get(&self, key: &K) -> (value: Option<&V>)
        ensures
            match value {
                Some(held) => self@.contains_key(*key) && *held == self@[*key],
                None => !self@.contains_key(*key),
            },
    {
        proof {
            use_type_invariant(self);
            lemma_entry_map(self.entries@);
        }
        match self.position(key) {
            Some(i) => {
                assert(entry_keys(self.entries@)[i as int] == *key);
                Some(&self.entries[i].1)
            },
            None => None,
        }
    }

    /// Puts `value` at `key`, in place of what was there. A new key goes to
    /// the end of the order.
    pub fn insert(&mut self, key: K, value: V)
        ensures
            final(self)@ == old(self)@.insert(key, value),
            final(self).key_order() == if old(self)@.contains_key(key) {
                old(self).key_order()
            } else {
                old(self).key_order().push(key)
            },
    {
        proof {
            use_type_invariant(&*self);
            lemma_entry_map(self.entries@);
        }
        let ghost before = self.entries@;
        let at = self.position(&key);
        let mut entries = Vec::new();
        std::mem::swap(&mut entries, &mut self.entries);
        match at {
            Some(i) => {
                entries.set(i, (key, value));
                proof {
                    lemma_put(before, entries@, i as int);
                }
            },
            None => {
                entries.push((key, value));
                proof {
                    lemma_put(before, entries@, before.len() as int);
                }
            },
        }
        self.entries = entries;
    }

    /// Takes out the value at `key`, if there is one.
    pub fn remove(&mut self, key: &K) -> (value: Option<V>)
        ensures
            final(self)@ == old(self)@.remove(*key),
            value == if old(self)@.contains_key(*key) {
                Some(old(self)@[*key])
            } else {
                None
            },
    {
        proof {
            use_type_invariant(&*self);
            lemma_entry_map(self.entries@);
        }
        let ghost before = self.entries@;
        match self.position(key) {
            Some(i) => {
                let mut entries = Vec::new();
                std::mem::swap(&mut entries, &mut self.entries);
                let entry = entries.remove(i);
                proof {
                    lemma_taken(before, i as int);
                }
                self.entries = entries;
                Some(entry.1)
            },
            None => {
                assert(self@ =~= self@.remove(*key));
                None
            },
        }
    }

    /// The entries, in key order. No key occurs twice among them.
    pub fn into_entries(self) -> (entries: Vec<(K, V)>)
        ensures
            entry_keys(entries@) == self.key_order(),
            entry_keys(entries@).no_duplicates(),
            entry_map(entries@) == self@,
    {
        proof {
            use_type_invariant(&self);
        }
        self.entries
    }
}

/// The list that a map of lists holds at `key`; the empty list where it holds
/// none.
pub open spec fn list_at<K, T>(lists: Map<K, Vec<T>>, key: K) -> Seq<T> {
    if lists.contains_key(key) {
        lists[key]@
    } else {
        Seq::empty()
    }
}

} // verus!
