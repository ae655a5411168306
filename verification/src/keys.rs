//! Keys of parent rows, and lists of them without repetition.

use crate::entities::StatisticsType;
use vstd::prelude::*;

verus! {

/// A value that identifies a parent row: comparable for equality and cheap to
/// copy, so that the same key can sit in a queue, in a batch and in a cache.
pub trait Key: Sized {
    /// Whether two keys are the same key.
    fn key_eq(&self, other: &Self) -> (same: bool)
        ensures
            same == (*self == *other),
    ;

    /// A copy of the key.
    fn key_copy(&self) -> (copy: Self)
        ensures
            copy == *self,
    ;
}

impl Key for u32 {
    fn key_eq(&self, other: &Self) -> (same: bool) {
        *self == *other
    }

    fn key_copy(&self) -> (copy: Self) {
        *self
    }
}

impl Key for (u32, StatisticsType) {
    fn key_eq(&self, other: &Self) -> (same: bool) {
        self.0 == other.0 && self.1 == other.1
    }

    fn key_copy(&self) -> (copy: Self) {
        (self.0, self.1)
    }
}

/// The keys of `keys`, each once, in the order of their first appearance.
pub open spec fn distinct<K>(keys: Seq<K>) -> Seq<K>
    decreases keys.len(),
{
    if keys.len() == 0 {
        Seq::empty()
    } else {
        let earlier = distinct(keys.drop_last());
        if earlier.contains(keys.last()) {
            earlier
        } else {
            earlier.push(keys.last())
        }
    }
}

/// `distinct` neither repeats a key nor loses or invents one.
pub proof fn lemma_distinct<K>(keys: Seq<K>)
    ensures
        distinct(keys).no_duplicates(),
        distinct(keys).len() <= keys.len(),
        forall|k: K| distinct(keys).contains(k) <==> keys.contains(k),
    decreases keys.len(),
{
    if keys.len() > 0 {
        let front = keys.drop_last();
        let earlier = distinct(front);
        lemma_distinct(front);
        assert forall|k: K| distinct(keys).contains(k) <==> keys.contains(k) by {
            if keys.contains(k) {
                let i = choose|i: int| 0 <= i < keys.len() && keys[i] == k;
                if i < front.len() {
                    assert(front[i] == k);
                    assert(front.contains(k));
                    let j = earlier.index_of(k);
                    assert(distinct(keys)[j] == k);
                } else if !earlier.contains(k) {
                    assert(distinct(keys)[earlier.len() as int] == k);
                } else {
                    let j = earlier.index_of(k);
                    assert(distinct(keys)[j] == k);
                }
            }
            if distinct(keys).contains(k) {
                let j = distinct(keys).index_of(k);
                if j < earlier.len() {
                    assert(earlier[j] == k);
                    assert(earlier.contains(k));
                    assert(front.contains(k));
                    let i = front.index_of(k);
                    assert(front[i] == keys[i]);
                } else {
                    assert(keys[keys.len() - 1] == k);
                }
            }
        }
    }
}

/// Scans `keys` for `key`.
pub fn contains_key<K: Key>(keys: &Vec<K>, key: &K) -> (found: bool)
    ensures
        found == keys@.contains(*key),
{
    let mut i: usize = 0;
    while i < keys.len()
        invariant
            i <= keys.len(),
            forall|j: int| 0 <= j < i ==> keys@[j] != *key,
        decreases keys.len() - i,
    {
        if keys[i].key_eq(key) {
            return true;
        }
        i += 1;
    }
    false
}

/// The distinct keys of `keys`, in the order of their first appearance.
pub fn distinct_keys<K: Key>(keys: &Vec<K>) -> (unique: Vec<K>)
    ensures
        unique@ == distinct(keys@),
{
    let mut unique: Vec<K> = Vec::new();
    let mut i: usize = 0;
    while i < keys.len()
        invariant
            i <= keys.len(),
            unique@ == distinct(keys@.take(i as int)),
        decreases keys.len() - i,
    {
        proof {
            assert(keys@.take(i + 1).drop_last() == keys@.take(i as int));
        }
        if !contains_key(&unique, &keys[i]) {
            unique.push(keys[i].key_copy());
        }
        i += 1;
    }
    proof {
        assert(keys@.take(keys.len() as int) == keys@);
    }
    unique
}

} // verus!
