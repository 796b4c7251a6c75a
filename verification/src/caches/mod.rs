//! Time-bounded cache of shared client handles.
//!
//! A cache maps a credential key to a shared handle and the instant at which
//! that handle stops being served. Entries are never evicted on a read: an
//! entry past its expiry is a miss for `get`, keeps its place until the next
//! sweep, and is overwritten by the next `add` for its key.
//!
//! Instants are nanoseconds measured by the cache's own monotonic clock. Every
//! operation that depends on the time has a form that takes the instant as an
//! argument; the form without it reads the clock and hands the reading on.

pub mod bingx;
pub mod bybit;

use crate::clock::Clock;
use crate::clock::MAX_READING;
use crate::handle::share;
use std::sync::Arc;
use vstd::prelude::*;

pub use bingx::BingxClientsCache;
pub use bybit::BybitClientsCache;

verus! {

/// Nanoseconds in one second.
pub const NANOS_PER_SEC: u128 = 1_000_000_000;

/// Lifetime, in seconds, of entries written to a cache that was never configured.
pub const DEFAULT_LIFETIME_SECS: u64 = 600;

/// A key of a client cache: a value whose view decides which entry it names.
pub trait CacheKey: View + Sized {
    /// Whether two keys name the same entry.
    fn same_key(&self, other: &Self) -> (same: bool)
        ensures
            same == (self@ == other@),
    ;
}

/// The view of a key made of credentials and mode flags: API key, API
/// secret, demo flag, testnet flag.
pub type CredentialKey = (Seq<char>, Seq<char>, bool, bool);

impl CacheKey for (String, String, bool, bool) {
    fn same_key(&self, other: &Self) -> (same: bool) {
        self.0 == other.0 && self.1 == other.1 && self.2 == other.2 && self.3 == other.3
    }
}

/// What a cache holds for one key: the shared handle and its expiry instant.
pub struct CachedClient<C> {
    pub client: Arc<C>,
    pub expires_at: u128,
}

/// The instant at which an entry written at `now` expires.
pub open spec fn expiry_of(now: u128, lifetime_secs: u64) -> int {
    now + lifetime_secs * NANOS_PER_SEC
}

/// An entry is served only strictly before its expiry.
pub open spec fn is_live<C>(entry: CachedClient<C>, now: u128) -> bool {
    entry.expires_at > now
}

/// The handle served for `key` at `now`: the stored one if it is live.
pub open spec fn lookup<KV, C>(m: Map<KV, CachedClient<C>>, key: KV, now: u128) -> Option<Arc<C>> {
    if m.contains_key(key) && is_live(m[key], now) {
        Some(m[key].client)
    } else {
        None
    }
}

/// The map after `client` was written under `key` with the given expiry.
pub open spec fn stored<KV, C>(
    m: Map<KV, CachedClient<C>>,
    key: KV,
    client: Arc<C>,
    expires_at: u128,
) -> Map<KV, CachedClient<C>> {
    m.insert(key, CachedClient { client, expires_at })
}

/// The keys whose entries are no longer live at `now`.
pub open spec fn expired_keys<KV, C>(m: Map<KV, CachedClient<C>>, now: u128) -> Set<KV> {
    Set::new(|k: KV| m.contains_key(k) && !is_live(m[k], now))
}

/// The map after a sweep at `now`: exactly the live entries stay.
pub open spec fn swept<KV, C>(m: Map<KV, CachedClient<C>>, now: u128) -> Map<KV, CachedClient<C>> {
    m.remove_keys(expired_keys(m, now))
}

/// What fetching `key` does at the instant `looked`: on a hit the cached
/// handle is served and the map stays; on a miss a created handle is served
/// and written to expire at `expires_at`.
pub open spec fn fetched<KV, C>(
    before: Map<KV, CachedClient<C>>,
    key: KV,
    looked: u128,
    expires_at: int,
    created: bool,
    client: Arc<C>,
    after: Map<KV, CachedClient<C>>,
) -> bool {
    match lookup(before, key, looked) {
        Some(cached) => client == cached && after == before,
        None => created && after == stored(before, key, client, expires_at as u128),
    }
}

/// A key that was never written misses, and once a fetch has created a
/// handle for it, every lookup before the entry's expiry serves that handle.
pub proof fn lemma_hit_after_create<KV, C>(
    before: Map<KV, CachedClient<C>>,
    key: KV,
    looked: u128,
    expires_at: int,
    created: bool,
    client: Arc<C>,
    after: Map<KV, CachedClient<C>>,
    later: u128,
)
    requires
        !before.contains_key(key),
        fetched(before, key, looked, expires_at, created, client, after),
        later < expires_at <= u128::MAX,
    ensures
        lookup(before, key, looked) is None,
        lookup(after, key, later) == Some(client),
{
}

/// An entry written at `now` is served at every instant before `now` plus the
/// lifetime and at no instant from then on, whether or not a sweep has run.
/// With a lifetime above zero it is served at `now` itself.
pub proof fn lemma_entry_expires<KV, C>(
    m: Map<KV, CachedClient<C>>,
    key: KV,
    client: Arc<C>,
    now: u128,
    lifetime_secs: u64,
    later: u128,
)
    requires
        expiry_of(now, lifetime_secs) <= u128::MAX,
    ensures
        lookup(
            stored(m, key, client, expiry_of(now, lifetime_secs) as u128),
            key,
            later,
        ) == (if later < expiry_of(now, lifetime_secs) {
            Some(client)
        } else {
            None
        }),
        lifetime_secs > 0 ==> lookup(
            stored(m, key, client, expiry_of(now, lifetime_secs) as u128),
            key,
            now,
        ) == Some(client),
{
}

/// Writing under one key changes the lookup of no other key.
pub proof fn lemma_keys_are_independent<KV, C>(
    m: Map<KV, CachedClient<C>>,
    written: KV,
    client: Arc<C>,
    expires_at: u128,
    other: KV,
    now: u128,
)
    requires
        written != other,
    ensures
        lookup(stored(m, written, client, expires_at), other, now) == lookup(m, other, now),
{
}

/// Credentials that differ only in the demo flag, or only in the testnet
/// flag, are different keys.
pub proof fn lemma_flags_discriminate(
    api_key: Seq<char>,
    api_secret: Seq<char>,
    demo: bool,
    testnet: bool,
)
    ensures
        (api_key, api_secret, demo, testnet) != (api_key, api_secret, !demo, testnet),
        (api_key, api_secret, demo, testnet) != (api_key, api_secret, demo, !testnet),
{
}

/// A sweep at `now` splits the entries in two: the live ones stay, each as it
/// was, and the others leave. Of `n` entries with `m` of them expired, `m`
/// leave and `n - m` stay.
pub proof fn lemma_sweep_partitions<KV, C>(m: Map<KV, CachedClient<C>>, now: u128)
    requires
        m.dom().finite(),
    ensures
        swept(m, now).dom().finite(),
        expired_keys(m, now).finite(),
        swept(m, now).len() + expired_keys(m, now).len() == m.len(),
        forall|k: KV| #[trigger]
            swept(m, now).contains_key(k) <==> m.contains_key(k) && is_live(m[k], now),
        forall|k: KV| #[trigger] swept(m, now).contains_key(k) ==> swept(m, now)[k] == m[k],
{
    let gone = expired_keys(m, now);
    vstd::set_lib::lemma_len_subset(gone, m.dom());
    vstd::set_lib::lemma_set_difference_len(m.dom(), gone);
    assert(m.dom().intersect(gone) =~= gone);
    assert(m.dom().difference(gone) =~= swept(m, now).dom());
}

struct Slot<K, C> {
    key: K,
    held: CachedClient<C>,
}

spec fn keys_of<K: CacheKey, C>(slots: Seq<Slot<K, C>>) -> Seq<K::V> {
    slots.map_values(|s: Slot<K, C>| s.key@)
}

spec fn model_of<K: CacheKey, C>(slots: Seq<Slot<K, C>>) -> Map<K::V, CachedClient<C>> {
    Map::new(
        |k: K::V| keys_of(slots).contains(k),
        |k: K::V| slots[keys_of(slots).index_of(k)].held,
    )
}

proof fn lemma_model_at<K: CacheKey, C>(slots: Seq<Slot<K, C>>, i: int)
    requires
        keys_of(slots).no_duplicates(),
        0 <= i < slots.len(),
    ensures
        model_of(slots).contains_key(slots[i].key@),
        model_of(slots)[slots[i].key@] == slots[i].held,
{
    let keys = keys_of(slots);
    assert(keys[i] == slots[i].key@);
    assert(keys.contains(slots[i].key@));
}

proof fn lemma_model_absent<K: CacheKey, C>(slots: Seq<Slot<K, C>>, k: K::V)
    requires
        forall|i: int| 0 <= i < slots.len() ==> (#[trigger] slots[i]).key@ != k,
    ensures
        !model_of(slots).contains_key(k),
{
    let keys = keys_of(slots);
    if keys.contains(k) {
        let i = choose|i: int| 0 <= i < keys.len() && keys[i] == k;
        assert(slots[i].key@ == k);
    }
}

proof fn lemma_model_present<K: CacheKey, C>(slots: Seq<Slot<K, C>>, k: K::V) -> (i: int)
    requires
        model_of(slots).contains_key(k),
    ensures
        0 <= i < slots.len(),
        slots[i].key@ == k,
{
    let keys = keys_of(slots);
    let i = choose|i: int| 0 <= i < keys.len() && keys[i] == k;
    i
}

proof fn lemma_model_push<K: CacheKey, C>(slots: Seq<Slot<K, C>>, slot: Slot<K, C>)
    requires
        keys_of(slots).no_duplicates(),
        !model_of(slots).contains_key(slot.key@),
    ensures
        keys_of(slots.push(slot)).no_duplicates(),
        model_of(slots.push(slot)) == model_of(slots).insert(slot.key@, slot.held),
{
    let after = slots.push(slot);
    let keys = keys_of(slots);
    let keys2 = keys_of(after);
    assert(keys2 =~= keys.push(slot.key@));
    assert forall|i: int, j: int|
        0 <= i < keys2.len() && 0 <= j < keys2.len() && i != j implies keys2[i] != keys2[j] by {
        if i < keys.len() && j == keys.len() {
            assert(keys.contains(keys[i]));
        }
        if j < keys.len() && i == keys.len() {
            assert(keys.contains(keys[j]));
        }
    }
    let m = model_of(slots).insert(slot.key@, slot.held);
    assert forall|k: K::V| model_of(after).contains_key(k) == m.contains_key(k) by {
        if model_of(after).contains_key(k) {
            let i = lemma_model_present(after, k);
            if i < slots.len() {
                lemma_model_at(slots, i);
            }
        }
        if m.contains_key(k) {
            if k == slot.key@ {
                lemma_model_at(after, slots.len() as int);
            } else {
                let i = lemma_model_present(slots, k);
                lemma_model_at(after, i);
            }
        }
    }
    assert forall|k: K::V| model_of(after).contains_key(k) implies model_of(after)[k] == m[k] by {
        let i = lemma_model_present(after, k);
        lemma_model_at(after, i);
        if i < slots.len() {
            lemma_model_at(slots, i);
        }
    }
}

proof fn lemma_model_update<K: CacheKey, C>(slots: Seq<Slot<K, C>>, i: int, slot: Slot<K, C>)
    requires
        keys_of(slots).no_duplicates(),
        0 <= i < slots.len(),
        slots[i].key@ == slot.key@,
    ensures
        keys_of(slots.update(i, slot)).no_duplicates(),
        model_of(slots.update(i, slot)) == model_of(slots).insert(slot.key@, slot.held),
{
    let after = slots.update(i, slot);
    assert(keys_of(after) =~= keys_of(slots));
    let m = model_of(slots).insert(slot.key@, slot.held);
    lemma_model_at(slots, i);
    assert forall|k: K::V| model_of(after).contains_key(k) implies model_of(after)[k] == m[k] by {
        let j = lemma_model_present(after, k);
        lemma_model_at(after, j);
        lemma_model_at(slots, j);
        if j != i {
            assert(keys_of(slots)[j] != keys_of(slots)[i]);
        }
    }
    assert forall|k: K::V| model_of(after).contains_key(k) == m.contains_key(k) by {
        if model_of(after).contains_key(k) {
            let j = lemma_model_present(after, k);
            lemma_model_at(slots, j);
        }
        if m.contains_key(k) && k != slot.key@ {
            let j = lemma_model_present(slots, k);
            lemma_model_at(after, j);
        }
        if k == slot.key@ {
            lemma_model_at(after, i);
        }
    }
}

proof fn lemma_model_len<K: CacheKey, C>(slots: Seq<Slot<K, C>>)
    requires
        keys_of(slots).no_duplicates(),
    ensures
        model_of(slots).dom().finite(),
        model_of(slots).dom().len() == slots.len(),
{
    let keys = keys_of(slots);
    keys.unique_seq_to_set();
}

proof fn lemma_model_absent_all<K: CacheKey, C>(slots: Seq<Slot<K, C>>)
    requires
        slots.len() == 0,
    ensures
        keys_of(slots).no_duplicates(),
        model_of(slots) == Map::<K::V, CachedClient<C>>::empty(),
{
}

/// Where `key` stands among the slots, if it does.
fn position<K: CacheKey, C>(slots: &Vec<Slot<K, C>>, key: &K) -> (found: Option<usize>)
    ensures
        match found {
            Some(i) => i < slots@.len() && slots@[i as int].key@ == key@,
            None => !model_of(slots@).contains_key(key@),
        },
{
    let mut i: usize = 0;
    while i < slots.len()
        invariant
            i <= slots@.len(),
            forall|j: int| 0 <= j < i ==> (#[trigger] slots@[j]).key@ != key@,
        decreases slots@.len() - i,
    {
        if slots[i].key.same_key(key) {
            return Some(i);
        }
        i += 1;
    }
    proof {
        lemma_model_absent(slots@, key@);
    }
    None
}

/// A cache of shared client handles, each served until its expiry.
pub struct ClientsCache<K: CacheKey, C> {
    slots: Vec<Slot<K, C>>,
    lifetime_secs: u64,
    clock: Clock,
}

impl<K: CacheKey, C> ClientsCache<K, C> {
    #[verifier::type_invariant]
    spec fn keys_distinct(self) -> bool {
        keys_of(self.slots@).no_duplicates()
    }

    /// The entries of the cache, live or not, by the view of their key.
    pub closed spec fn view(&self) -> Map<K::V, CachedClient<C>> {
        model_of(self.slots@)
    }

    /// The lifetime, in seconds, given to the entries written from now on.
    pub closed spec fn lifetime_secs(&self) -> u64 {
        self.lifetime_secs
    }

    /// An empty cache with the default lifetime and a clock of its own.
    pub fn new() -> (cache: Self)
        ensures
            cache@ == Map::<K::V, CachedClient<C>>::empty(),
            cache.lifetime_secs() == DEFAULT_LIFETIME_SECS,
    {
        let cache = ClientsCache {
            slots: Vec::new(),
            lifetime_secs: DEFAULT_LIFETIME_SECS,
            clock: Clock::start(),
        };
        proof {
            lemma_model_absent_all::<K, C>(cache.slots@);
        }
        cache
    }

    /// Sets the lifetime of the entries written from now on. Entries already
    /// in the cache keep the expiry they were given.
    pub fn configure(&mut self, lifetime_seconds: u64)
        ensures
            final(self)@ == old(self)@,
            final(self).lifetime_secs() == lifetime_seconds,
    {
        proof {
            use_type_invariant(&*self);
        }
        self.lifetime_secs = lifetime_seconds;
    }

    /// The lifetime, in seconds, given to the entries written from now on.
    pub fn lifetime(&self) -> (secs: u64)
        ensures
            secs == self.lifetime_secs(),
    {
        self.lifetime_secs
    }

    /// The reading of the cache's clock.
    pub fn now(&self) -> (nanos: u128)
        ensures
            nanos <= MAX_READING,
    {
        self.clock.now()
    }

    /// Moves the slots out and leaves the cache empty until they are put back.
    fn take_slots(&mut self) -> (slots: Vec<Slot<K, C>>)
        ensures
            slots@ == old(self).slots@,
            keys_of(slots@).no_duplicates(),
            final(self).slots@.len() == 0,
            final(self).lifetime_secs == old(self).lifetime_secs,
    {
        proof {
            use_type_invariant(&*self);
        }
        let mut slots: Vec<Slot<K, C>> = Vec::new();
        proof {
            lemma_model_absent_all::<K, C>(slots@);
        }
        core::mem::swap(&mut self.slots, &mut slots);
        slots
    }

    /// The handle cached for `key`, if there is one and it is live at `now`.
    /// The cache is left as it is: an expired entry is a miss and stays.
    pub fn get_at(&self, key: &K, now: u128) -> (hit: Option<Arc<C>>)
        ensures
            hit == lookup(self@, key@, now),
    {
        proof {
            use_type_invariant(self);
        }
        match position(&self.slots, key) {
            Some(i) => {
                proof {
                    lemma_model_at(self.slots@, i as int);
                }
                if self.slots[i].held.expires_at > now {
                    Some(share(&self.slots[i].held.client))
                } else {
                    None
                }
            },
            None => None,
        }
    }

    /// The handle cached for `key`, if there is one and it is live at the
    /// clock's reading.
    pub fn get(&self, key: &K) -> (hit: Option<Arc<C>>)
        ensures
            exists|now: u128| now <= MAX_READING && hit == lookup(self@, key@, now),
    {
        let now = self.clock.now();
        self.get_at(key, now)
    }

    /// Writes `client` under `key`, over any entry the key had, to expire one
    /// lifetime after `now`.
    pub fn add_at(&mut self, key: K, client: Arc<C>, now: u128)
        requires
            expiry_of(now, old(self).lifetime_secs()) <= u128::MAX,
        ensures
            final(self)@ == stored(
                old(self)@,
                key@,
                client,
                expiry_of(now, old(self).lifetime_secs()) as u128,
            ),
            final(self).lifetime_secs() == old(self).lifetime_secs(),
    {
        proof {
            use_type_invariant(&*self);
        }
        let expires_at: u128 = now + (self.lifetime_secs as u128) * NANOS_PER_SEC;
        let slot = Slot { key, held: CachedClient { client, expires_at } };
        let mut slots = self.take_slots();
        match position(&slots, &slot.key) {
            Some(i) => {
                proof {
                    lemma_model_update(slots@, i as int, slot);
                }
                slots.set(i, slot);
            },
            None => {
                proof {
                    lemma_model_push(slots@, slot);
                }
                slots.push(slot);
            },
        }
        self.slots = slots;
    }

    /// Writes `client` under `key`, over any entry the key had, to expire one
    /// lifetime after the clock's reading.
    pub fn add(&mut self, key: K, client: Arc<C>)
        ensures
            exists|now: u128|
                now <= MAX_READING && final(self)@ == stored(
                    old(self)@,
                    key@,
                    client,
                    expiry_of(now, old(self).lifetime_secs()) as u128,
                ),
            final(self).lifetime_secs() == old(self).lifetime_secs(),
    {
        let now = self.clock.now();
        self.add_at(key, client, now);
    }

    /// The handle cached for `key` if it is live at `now`; otherwise the
    /// handle that `create` builds, which is first written under `key` as by
    /// `add_at`. On a hit `create` is not called and the cache stays as it is.
    pub fn get_or_create_at<F: FnOnce() -> Arc<C>>(
        &mut self,
        key: K,
        create: F,
        now: u128,
    ) -> (client: Arc<C>)
        requires
            create.requires(()),
            expiry_of(now, old(self).lifetime_secs()) <= u128::MAX,
        ensures
            fetched(
                old(self)@,
                key@,
                now,
                expiry_of(now, old(self).lifetime_secs()),
                create.ensures((), client),
                client,
                final(self)@,
            ),
            final(self).lifetime_secs() == old(self).lifetime_secs(),
    {
        match self.get_at(&key, now) {
            Some(cached) => cached,
            None => {
                let client = create();
                self.add_at(key, share(&client), now);
                client
            },
        }
    }

    /// As `get_or_create_at`, with the clock read once for the lookup and,
    /// on a miss, once more for the write after `create` has returned.
    pub fn get_or_create<F: FnOnce() -> Arc<C>>(&mut self, key: K, create: F) -> (client: Arc<C>)
        requires
            create.requires(()),
        ensures
            exists|looked: u128, written: u128|
                looked <= MAX_READING && written <= MAX_READING && #[trigger] fetched(
                    old(self)@,
                    key@,
                    looked,
                    expiry_of(written, old(self).lifetime_secs()),
                    create.ensures((), client),
                    client,
                    final(self)@,
                ),
            final(self).lifetime_secs() == old(self).lifetime_secs(),
    {
        let looked = self.clock.now();
        match self.get_at(&key, looked) {
            Some(cached) => {
                assert(fetched(
                    old(self)@,
                    key@,
                    looked,
                    expiry_of(looked, old(self).lifetime_secs()),
                    create.ensures((), cached),
                    cached,
                    self@,
                ));
                cached
            },
            None => {
                let client = create();
                let written = self.clock.now();
                self.add_at(key, share(&client), written);
                assert(fetched(
                    old(self)@,
                    key@,
                    looked,
                    expiry_of(written, old(self).lifetime_secs()),
                    create.ensures((), client),
                    client,
                    self@,
                ));
                client
            },
        }
    }

    /// Removes every entry that is not live at `now` and says how many left.
    pub fn cleanup_expired_at(&mut self, now: u128) -> (removed: usize)
        ensures
            final(self)@ == swept(old(self)@, now),
            old(self)@.dom().finite(),
            removed == expired_keys(old(self)@, now).len(),
            final(self).lifetime_secs() == old(self).lifetime_secs(),
    {
        let mut slots = self.take_slots();
        let ghost orig = slots@;
        let mut kept: Vec<Slot<K, C>> = Vec::new();
        let mut removed: usize = 0;
        proof {
            lemma_model_absent_all::<K, C>(kept@);
            assert(orig.len() == slots.len());
        }
        while slots.len() > 0
            invariant
                slots@.len() <= orig.len() <= usize::MAX,
                slots@ == orig.subrange(0, slots@.len() as int),
                keys_of(orig).no_duplicates(),
                keys_of(kept@).no_duplicates(),
                removed + kept@.len() + slots@.len() == orig.len(),
                forall|p: int|
                    0 <= p < kept@.len() ==> is_live((#[trigger] kept@[p]).held, now)
                        && exists|j: int| slots@.len() <= j < orig.len() && orig[j] == kept@[p],
                forall|j: int|
                    slots@.len() <= j < orig.len() && is_live((#[trigger] orig[j]).held, now)
                        ==> exists|p: int| 0 <= p < kept@.len() && kept@[p] == orig[j],
            decreases slots@.len(),
        {
            let ghost before = kept@;
            let ghost at = slots@.len() - 1;
            let slot = slots.pop().unwrap();
            if slot.held.expires_at > now {
                proof {
                    assert(!model_of(before).contains_key(slot.key@)) by {
                        if model_of(before).contains_key(slot.key@) {
                            let p = lemma_model_present(before, slot.key@);
                            let j = choose|j: int| at < j < orig.len() && orig[j] == before[p];
                            assert(keys_of(orig)[j] == keys_of(orig)[at]);
                        }
                    }
                    lemma_model_push(before, slot);
                }
                kept.push(slot);
                assert forall|j: int|
                    slots@.len() <= j < orig.len() && is_live((#[trigger] orig[j]).held, now)
                    implies exists|p: int| 0 <= p < kept@.len() && kept@[p] == orig[j] by {
                    if j == at {
                        assert(kept@[before.len() as int] == orig[j]);
                    } else {
                        let p = choose|p: int| 0 <= p < before.len() && before[p] == orig[j];
                        assert(kept@[p] == orig[j]);
                    }
                }
            } else {
                removed += 1;
            }
        }
        self.slots = kept;
        proof {
            let m = model_of(orig);
            let after = model_of(kept@);
            lemma_model_len(orig);
            lemma_model_len(kept@);
            lemma_sweep_partitions(m, now);
            assert forall|k: K::V| #[trigger]
                after.dom().contains(k) == swept(m, now).dom().contains(k) by {
                if after.contains_key(k) {
                    let p = lemma_model_present(kept@, k);
                    let j = choose|j: int| 0 <= j < orig.len() && orig[j] == kept@[p];
                    lemma_model_at(orig, j);
                }
                if swept(m, now).contains_key(k) {
                    let j = lemma_model_present(orig, k);
                    lemma_model_at(orig, j);
                    let p = choose|p: int| 0 <= p < kept@.len() && kept@[p] == orig[j];
                    lemma_model_at(kept@, p);
                }
            }
            assert forall|k: K::V| #[trigger] after.dom().contains(k) implies after[k] == swept(
                m,
                now,
            )[k] by {
                let p = lemma_model_present(kept@, k);
                lemma_model_at(kept@, p);
                let j = choose|j: int| 0 <= j < orig.len() && orig[j] == kept@[p];
                lemma_model_at(orig, j);
            }
        }
        removed
    }

    /// Removes every entry that is not live at the clock's reading and says
    /// how many left.
    pub fn cleanup_expired(&mut self) -> (removed: usize)
        ensures
            old(self)@.dom().finite(),
            exists|now: u128|
                now <= MAX_READING && final(self)@ == swept(old(self)@, now) && removed
                    == expired_keys(old(self)@, now).len(),
            final(self).lifetime_secs() == old(self).lifetime_secs(),
    {
        let now = self.clock.now();
        self.cleanup_expired_at(now)
    }

    /// The number of entries, live or not.
    pub fn size(&self) -> (n: usize)
        ensures
            self@.dom().finite(),
            n == self@.len(),
    {
        proof {
            use_type_invariant(self);
            lemma_model_len(self.slots@);
        }
        self.slots.len()
    }

    /// Removes every entry, whatever its expiry.
    pub fn clear(&mut self)
        ensures
            final(self)@ == Map::<K::V, CachedClient<C>>::empty(),
            final(self).lifetime_secs() == old(self).lifetime_secs(),
    {
        self.slots = Vec::new();
        proof {
            lemma_model_absent_all::<K, C>(self.slots@);
        }
    }
}

} // verus!
