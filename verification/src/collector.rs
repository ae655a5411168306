//! The key-batch collector: registrations of one tick leave as one batch,
//! and what the fetch for the batch returns serves every waiter and the rest
//! of the request.

use crate::keyed::Fetched;
use crate::keyed::KeyMap;
use crate::keys::distinct;
use crate::keys::distinct_keys;
use crate::keys::lemma_distinct;
use crate::keys::Key;
use vstd::prelude::*;

verus! {

/// What a batch loader holds at one moment, as mathematics.
#[verifier::reject_recursive_types(K)]
pub struct LoaderState<K, V> {
    /// The values resolved so far in this request.
    pub cache: Map<K, V>,
    /// The keys registered since the last batch left, one for each caller,
    /// in the order of the calls.
    pub pending: Seq<K>,
}

impl<K, V> LoaderState<K, V> {
    /// The state of a loader at the start of a request.
    pub open spec fn fresh() -> Self {
        LoaderState { cache: Map::empty(), pending: Seq::empty() }
    }

    /// The state after one more caller asked for `key`: a resolved key
    /// changes nothing, any other key joins the queue.
    pub open spec fn registered(self, key: K) -> Self {
        if self.cache.contains_key(key) {
            self
        } else {
            LoaderState { cache: self.cache, pending: self.pending.push(key) }
        }
    }

    /// What a caller that asks for `key` is told: that the key is resolved,
    /// or which place in the queue it takes.
    pub open spec fn answer(self, key: K) -> Registration {
        if self.cache.contains_key(key) {
            Registration::Cached
        } else {
            Registration::Queued(self.pending.len() as usize)
        }
    }

    /// The state after the callers of `keys` asked, one after the other.
    pub open spec fn registered_all(self, keys: Seq<K>) -> Self
        decreases keys.len(),
    {
        if keys.len() == 0 {
            self
        } else {
            self.registered_all(keys.drop_last()).registered(keys.last())
        }
    }

    /// The state after the queue left as a batch.
    pub open spec fn begun(self) -> Self {
        LoaderState { cache: self.cache, pending: Seq::empty() }
    }

    /// The state after the fetch for a batch of `keys` came back with
    /// `fetched`: what was fetched for a key of the batch is kept, unless the
    /// key was resolved before.
    pub open spec fn completed(self, keys: Seq<K>, fetched: Map<K, V>) -> Self {
        LoaderState {
            cache: Map::new(
                |key: K|
                    self.cache.contains_key(key) || (keys.contains(key) && fetched.contains_key(
                        key,
                    )),
                |key: K|
                    if self.cache.contains_key(key) {
                        self.cache[key]
                    } else {
                        fetched[key]
                    },
            ),
            pending: self.pending,
        }
    }
}

/// What a caller learns when it asks a loader for a key.
#[derive(Clone, Copy, Debug, PartialEq, Eq, Structural)]
pub enum Registration {
    /// The key was resolved earlier in this request: its value is in the
    /// cache, and no fetch will be made for this call.
    Cached,
    /// The caller waits for the next batch, as the waiter with this number.
    Queued(usize),
}

/// What a waiter is handed when its batch has been dealt with.
#[derive(Clone, Copy, Debug, PartialEq, Eq, Structural)]
pub enum Outcome {
    /// The key has a value; the loader's cache holds it.
    Value,
    /// The store has nothing for the key.
    Absent,
    /// The fetch for the batch failed.
    Failed,
}

/// Word that the fetch for a batch failed.
#[derive(Clone, Copy, Debug, PartialEq, Eq, Structural)]
pub struct FetchFailed;

/// What each waiter of `waiters` is handed once `cache` holds what its batch
/// resolved: a value where the cache has one for its key, and word of its
/// absence where not.
pub open spec fn delivered<K, V>(waiters: Seq<K>, cache: Map<K, V>) -> Seq<Outcome> {
    Seq::new(
        waiters.len(),
        |i: int|
            if cache.contains_key(waiters[i]) {
                Outcome::Value
            } else {
                Outcome::Absent
            },
    )
}

/// What each waiter of `waiters` is handed when the fetch for their batch
/// failed: the failure, all of them.
pub open spec fn refused<K>(waiters: Seq<K>) -> Seq<Outcome> {
    Seq::new(waiters.len(), |i: int| Outcome::Failed)
}

/// The callers of one tick and the keys to fetch for them.
pub struct Batch<K> {
    keys: Vec<K>,
    waiters: Vec<K>,
}

impl<K> Batch<K> {
    #[verifier::type_invariant]
    spec fn coalesced(&self) -> bool {
        self.keys@ == distinct(self.waiters@) && self.waiters@.len() > 0
    }

    /// The keys to fetch: each key that a waiter asked for, once.
    pub closed spec fn key_seq(&self) -> Seq<K> {
        self.keys@
    }

    /// The key of each waiter, in the order in which they registered.
    pub closed spec fn waiter_seq(&self) -> Seq<K> {
        self.waiters@
    }

    /// The keys to hand to the fetch.
    pub fn keys(&self) -> (keys: &Vec<K>)
        ensures
            keys@ == self.key_seq(),
            self.key_seq() == distinct(self.waiter_seq()),
            self.key_seq().len() > 0,
    {
        proof {
            use_type_invariant(self);
        }
        &self.keys
    }

    /// The key of each waiter; the waiter numbered `i` asked for the key at
    /// `i`.
    pub fn waiters(&self) -> (waiters: &Vec<K>)
        ensures
            waiters@ == self.waiter_seq(),
            waiters@.len() > 0,
    {
        proof {
            use_type_invariant(self);
        }
        &self.waiters
    }
}

/// A batch loader for one kind of relationship and one request. Callers
/// register keys; once the tick is over, the queue leaves as one batch whose
/// keys are fetched in a single query; what comes back is kept for the rest
/// of the request and handed to every waiter.
pub struct BatchLoader<K, V> {
    cache: KeyMap<K, V>,
    pending: Vec<K>,
}

impl<K, V> View for BatchLoader<K, V> {
    type V = LoaderState<K, V>;

    closed spec fn view(&self) -> LoaderState<K, V> {
        LoaderState { cache: self.cache@, pending: self.pending@ }
    }
}

impl<K: Key, V> BatchLoader<K, V> {
    /// A loader with nothing resolved and nobody waiting.
    pub fn new() -> (loader: Self)
        ensures
            loader@ == LoaderState::<K, V>::fresh(),
    {
        BatchLoader { cache: KeyMap::new(), pending: Vec::new() }
    }

    /// Asks for the value of `key` on behalf of one caller.
    pub fn register(&mut self, key: K) -> (registration: Registration)
        ensures
            final(self)@ == old(self)@.registered(key),
            registration == old(self)@.answer(key),
    {
        if self.cache.contains_key(&key) {
            Registration::Cached
        } else {
            let waiter = self.pending.len();
            self.pending.push(key);
            Registration::Queued(waiter)
        }
    }

    /// The resolved value of `key`, if it has one.
    pub fn get(&self, key: &K) -> (value: Option<&V>)
        ensures
            match value {
                Some(held) => self@.cache.contains_key(*key) && *held == self@.cache[*key],
                None => !self@.cache.contains_key(*key),
            },
    {
        self.cache.get(key)
    }

    /// What a caller that asked for `key` resolves to, once it has been
    /// handed `outcome`: the value of the key, no value where the store has
    /// none, which is no error, or the failure of the fetch.
    pub fn resolution(&self, key: &K, outcome: Outcome) -> (resolved: Result<
        Option<&V>,
        FetchFailed,
    >)
        ensures
            match outcome {
                Outcome::Failed => resolved == Err::<Option<&V>, FetchFailed>(FetchFailed),
                Outcome::Absent => resolved == Ok::<Option<&V>, FetchFailed>(None),
                Outcome::Value => resolved matches Ok(value) && match value {
                    Some(held) => self@.cache.contains_key(*key) && *held == self@.cache[*key],
                    None => !self@.cache.contains_key(*key),
                },
            },
    {
        match outcome {
            Outcome::Failed => Err(FetchFailed),
            Outcome::Absent => Ok(None),
            Outcome::Value => Ok(self.cache.get(key)),
        }
    }

    /// The number of callers that wait for the next batch.
    pub fn waiting(&self) -> (count: usize)
        ensures
            count == self@.pending.len(),
    {
        self.pending.len()
    }

    /// Ends the tick: the callers that registered since the last batch leave
    /// as one batch. With nobody waiting there is no batch, and nothing to
    /// fetch.
    pub fn begin_fetch(&mut self) -> (batch: Option<Batch<K>>)
        ensures
            final(self)@ == old(self)@.begun(),
            match batch {
                Some(batch) => {
                    &&& old(self)@.pending.len() > 0
                    &&& batch.waiter_seq() == old(self)@.pending
                    &&& batch.key_seq() == distinct(old(self)@.pending)
                },
                None => old(self)@.pending.len() == 0,
            },
    {
        if self.pending.len() == 0 {
            assert(self.pending@ =~= Seq::<K>::empty());
            return None;
        }
        let mut waiters: Vec<K> = Vec::new();
        std::mem::swap(&mut waiters, &mut self.pending);
        let keys = distinct_keys(&waiters);
        Some(Batch { keys, waiters })
    }

    /// Takes in what the fetch for `batch` returned, and says what each of
    /// its waiters is handed, waiter by waiter.
    pub fn complete<F: Fetched<K, V>>(&mut self, batch: Batch<K>, fetched: F) -> (outcomes: Vec<
        Outcome,
    >)
        ensures
            final(self)@ == old(self)@.completed(batch.key_seq(), fetched.found()),
            outcomes@ == delivered(batch.waiter_seq(), final(self)@.cache),
    {
        let ghost before = self@;
        let ghost keys = batch.key_seq();
        let ghost found = fetched.found();
        let mut fetched = fetched;
        proof {
            use_type_invariant(&batch);
            lemma_distinct(batch.waiter_seq());
            assert(before.completed(keys.take(0), found).cache =~= before.cache);
        }
        let mut at: usize = 0;
        while at < batch.keys().len()
            invariant
                at <= keys.len(),
                batch.key_seq() == keys,
                keys.no_duplicates(),
                self@ == before.completed(keys.take(at as int), found),
                forall|key: K|
                    !keys.take(at as int).contains(key) ==> (#[trigger] fetched.found().contains_key(
                        key,
                    ) <==> found.contains_key(key)),
                forall|key: K|
                    !keys.take(at as int).contains(key) && #[trigger] found.contains_key(key)
                        ==> fetched.found()[key] == found[key],
            decreases keys.len() - at,
        {
            let key = &batch.keys()[at];
            let ghost held = self@.cache;
            proof {
                if keys.take(at as int).contains(*key) {
                    let earlier = keys.take(at as int).index_of(*key);
                    assert(keys[earlier] == keys[at as int]);
                }
                assert(keys.take(at + 1) =~= keys.take(at as int).push(*key));
            }
            if !self.cache.contains_key(key) {
                match fetched.take(key) {
                    Some(value) => {
                        self.cache.insert(key.key_copy(), value);
                    },
                    None => {},
                }
            }
            proof {
                assert forall|other: K| keys.take(at + 1).contains(other) <==> keys.take(
                    at as int,
                ).contains(other) || other == *key by {
                    if keys.take(at as int).contains(other) {
                        let i = keys.take(at as int).index_of(other);
                        assert(keys.take(at + 1)[i] == other);
                    }
                    if other == *key {
                        assert(keys.take(at + 1)[at as int] == other);
                    }
                }
                assert(self@.cache =~= before.completed(keys.take(at + 1), found).cache);
            }
            at += 1;
        }
        proof {
            assert(keys.take(keys.len() as int) =~= keys);
        }
        let waiters = batch.waiters();
        let mut outcomes: Vec<Outcome> = Vec::new();
        let mut i: usize = 0;
        while i < waiters.len()
            invariant
                i <= waiters.len(),
                outcomes@ == delivered(waiters@.take(i as int), self@.cache),
            decreases waiters.len() - i,
        {
            let outcome = if self.cache.contains_key(&waiters[i]) {
                Outcome::Value
            } else {
                Outcome::Absent
            };
            outcomes.push(outcome);
            i += 1;
        }
        outcomes
    }

    /// Says what each waiter of `batch` is handed when its fetch failed: the
    /// failure, every one of them. Nothing is kept from a failed fetch.
    pub fn fail(&self, batch: Batch<K>) -> (outcomes: Vec<Outcome>)
        ensures
            outcomes@ == refused(batch.waiter_seq()),
    {
        let waiters = batch.waiters();
        let mut outcomes: Vec<Outcome> = Vec::new();
        let mut i: usize = 0;
        while i < waiters.len()
            invariant
                i <= waiters.len(),
                outcomes@ == refused(waiters@.take(i as int)),
            decreases waiters.len() - i,
        {
            outcomes.push(Outcome::Failed);
            i += 1;
        }
        outcomes
    }
}

/// Coalescing: however many callers register in a tick, and whatever keys
/// they repeat, the batch that leaves lists each key that is not yet resolved
/// exactly once, and nothing is left behind for a second fetch. Where none of
/// the keys is resolved, every caller waits, and the batch has as many keys
/// as the callers asked for different ones.
pub proof fn law_coalescing<K, V>(state: LoaderState<K, V>, keys: Seq<K>)
    ensures
        state.registered_all(keys).cache == state.cache,
        state.registered_all(keys).pending == state.pending + keys.filter(
            |key: K| !state.cache.contains_key(key),
        ),
        (forall|i: int| 0 <= i < keys.len() ==> !state.cache.contains_key(#[trigger] keys[i]))
            ==> state.registered_all(keys).pending == state.pending + keys,
        distinct(state.registered_all(keys).pending).no_duplicates(),
        distinct(state.registered_all(keys).pending).to_set() == state.registered_all(
            keys,
        ).pending.to_set(),
        distinct(state.registered_all(keys).pending).len() == state.registered_all(
            keys,
        ).pending.to_set().len(),
        distinct(state.registered_all(keys).pending).len() <= state.registered_all(
            keys,
        ).pending.len(),
        state.registered_all(keys).begun().pending.len() == 0,
    decreases keys.len(),
{
    let unresolved = |key: K| !state.cache.contains_key(key);
    if keys.len() == 0 {
        assert(keys.filter(unresolved) =~= Seq::<K>::empty()) by {
            reveal(Seq::filter);
        }
    } else {
        let front = keys.drop_last();
        law_coalescing(state, front);
        assert(front.push(keys.last()) =~= keys);
        front.lemma_filter_push(keys.last(), unresolved);
        assert(state.pending + front.filter(unresolved).push(keys.last()) =~= (state.pending
            + front.filter(unresolved)).push(keys.last()));
        if forall|i: int| 0 <= i < keys.len() ==> !state.cache.contains_key(#[trigger] keys[i]) {
            assert forall|i: int| 0 <= i < front.len() implies !state.cache.contains_key(
                #[trigger] front[i],
            ) by {
                assert(front[i] == keys[i]);
            }
            assert((state.pending + front).push(keys.last()) =~= state.pending + keys);
        }
    }
    let queued = state.registered_all(keys).pending;
    lemma_distinct(queued);
    assert(distinct(queued).to_set() =~= queued.to_set());
    distinct(queued).unique_seq_to_set();
}

/// Cache idempotence: once a key is resolved, asking for it again changes
/// nothing, so no fetch follows from it, and no later batch changes its
/// value.
pub proof fn law_cache_idempotence<K, V>(
    state: LoaderState<K, V>,
    key: K,
    later_keys: Seq<K>,
    later_fetched: Map<K, V>,
)
    requires
        state.cache.contains_key(key),
    ensures
        state.registered(key) == state,
        state.completed(later_keys, later_fetched).cache.contains_key(key),
        state.completed(later_keys, later_fetched).cache[key] == state.cache[key],
{
}

/// Resolution: after the fetch for a batch came back, a key of the batch is
/// resolved exactly if it was before or the fetch returned an entry for it,
/// and a key outside the batch gains nothing from whatever else the fetch
/// returned.
pub proof fn law_resolution<K, V>(
    state: LoaderState<K, V>,
    waiters: Seq<K>,
    fetched: Map<K, V>,
    key: K,
)
    ensures
        waiters.contains(key) ==> (state.completed(distinct(waiters), fetched).cache.contains_key(
            key,
        ) <==> state.cache.contains_key(key) || fetched.contains_key(key)),
        !waiters.contains(key) ==> (state.completed(
            distinct(waiters),
            fetched,
        ).cache.contains_key(key) <==> state.cache.contains_key(key)),
        !state.cache.contains_key(key) && waiters.contains(key) && fetched.contains_key(key)
            ==> state.completed(distinct(waiters), fetched).cache[key] == fetched[key],
{
    lemma_distinct(waiters);
}

/// Absence mapping: every waiter of a batch is handed exactly one outcome,
/// and that is never a failure: a value where its key is resolved, and word
/// of its absence where the store had nothing for it.
pub proof fn law_absence<K, V>(
    state: LoaderState<K, V>,
    waiters: Seq<K>,
    fetched: Map<K, V>,
    waiter: int,
)
    requires
        0 <= waiter < waiters.len(),
    ensures
        delivered(waiters, state.completed(distinct(waiters), fetched).cache).len()
            == waiters.len(),
        delivered(waiters, state.completed(distinct(waiters), fetched).cache)[waiter]
            == if state.cache.contains_key(waiters[waiter]) || fetched.contains_key(
            waiters[waiter],
        ) {
            Outcome::Value
        } else {
            Outcome::Absent
        },
{
    law_resolution(state, waiters, fetched, waiters[waiter]);
}

/// Failure: when the fetch for a batch fails, every waiter of the batch is
/// handed the failure, none a value and none word of an absence.
pub proof fn law_failure<K>(waiters: Seq<K>, waiter: int)
    requires
        0 <= waiter < waiters.len(),
    ensures
        refused(waiters).len() == waiters.len(),
        refused(waiters)[waiter] == Outcome::Failed,
{
}

} // verus!
