//! The Bybit client cache under its first interface, which names the demo
//! flag before the testnet flag. It keeps the entries of a
//! `BybitClientsCache` and serves them by the same rules.

use crate::bybit::BybitClient;
use crate::caches::bybit::fetched_or_built;
use crate::caches::bybit::key_of;
use crate::caches::expired_keys;
use crate::caches::expiry_of;
use crate::caches::lookup;
use crate::caches::stored;
use crate::caches::swept;
use crate::caches::BybitClientsCache;
use crate::caches::CachedClient;
use crate::caches::CredentialKey;
use crate::clock::MAX_READING;
use crate::error::SdkError;
use crate::session::SharedSessionManager;
use std::sync::Arc;
use vstd::prelude::*;

verus! {

/// Cache of Bybit clients, keyed by credentials and mode flags.
pub struct BybitClientCache {
    cache: BybitClientsCache,
}

impl BybitClientCache {
    /// The entries of the cache, live or not, by key.
    pub closed spec fn view(&self) -> Map<CredentialKey, CachedClient<BybitClient>> {
        self.cache@
    }

    /// The lifetime, in seconds, given to the entries written from now on.
    pub closed spec fn lifetime_secs(&self) -> u64 {
        self.cache.lifetime_secs()
    }

    /// An empty cache with the default lifetime.
    pub fn new() -> (cache: Self)
        ensures
            cache@ == Map::<CredentialKey, CachedClient<BybitClient>>::empty(),
            cache.lifetime_secs() == crate::caches::DEFAULT_LIFETIME_SECS,
    {
        BybitClientCache { cache: BybitClientsCache::new() }
    }

    /// Sets the lifetime of the entries written from now on.
    pub fn configure(&mut self, lifetime_seconds: u64)
        ensures
            final(self)@ == old(self)@,
            final(self).lifetime_secs() == lifetime_seconds,
    {
        self.cache.configure(lifetime_seconds)
    }

    /// The client cached for the credentials and flags, if it is live at the
    /// clock's reading.
    pub fn get(&self, api_key: &str, api_secret: &str, demo: bool, testnet: bool) -> (hit: Option<
        Arc<BybitClient>,
    >)
        ensures
            exists|now: u128|
                now <= MAX_READING && hit == lookup(
                    self@,
                    key_of(api_key@, api_secret@, testnet, demo),
                    now,
                ),
    {
        assert(self@ == self.cache@);
        self.cache.get(api_key, api_secret, testnet, demo)
    }

    /// The client cached for the credentials and flags if it is live;
    /// otherwise a client built from them, which is first written. Building
    /// cannot fail while the shared session is open; where it fails nothing
    /// is written.
    pub fn get_or_create(
        &mut self,
        api_key: String,
        api_secret: String,
        demo: bool,
        testnet: bool,
        session: &SharedSessionManager,
    ) -> (fetched: Result<Arc<BybitClient>, SdkError>)
        ensures
            exists|looked: u128, written: u128|
                looked <= MAX_READING && written <= MAX_READING && #[trigger] fetched_or_built(
                    old(self)@,
                    api_key,
                    api_secret,
                    testnet,
                    demo,
                    session,
                    looked,
                    expiry_of(written, old(self).lifetime_secs()),
                    fetched,
                    final(self)@,
                ),
            final(self).lifetime_secs() == old(self).lifetime_secs(),
    {
        assert(self@ == self.cache@ && self.lifetime_secs() == self.cache.lifetime_secs());
        let fetched = self.cache.get_or_create(api_key, api_secret, testnet, demo, session);
        assert(self@ == self.cache@);
        fetched
    }

    /// Writes `client` under the credentials and flags, to expire one
    /// lifetime after the clock's reading.
    pub fn add(
        &mut self,
        client: Arc<BybitClient>,
        api_key: &str,
        api_secret: &str,
        demo: bool,
        testnet: bool,
    )
        ensures
            exists|now: u128|
                now <= MAX_READING && final(self)@ == stored(
                    old(self)@,
                    key_of(api_key@, api_secret@, testnet, demo),
                    client,
                    expiry_of(now, old(self).lifetime_secs()) as u128,
                ),
            final(self).lifetime_secs() == old(self).lifetime_secs(),
    {
        assert(self@ == self.cache@ && self.lifetime_secs() == self.cache.lifetime_secs());
        self.cache.add(client, api_key, api_secret, testnet, demo);
    }

    /// Removes every entry that is not live at the clock's reading and says
    /// how many left.
    pub fn cleanup_expired(&mut self) -> (removed: usize)
        ensures
            old(self)@.dom().finite(),
            exists|now: u128|
                now <= MAX_READING && final(self)@ == swept(old(self)@, now) && removed
                    == expired_keys(old(self)@, now).len(),
            final(self).lifetime_secs() == old(self).lifetime_secs(),
    {
        self.cache.cleanup_expired()
    }

    /// The number of entries, live or not.
    pub fn size(&self) -> (n: usize)
        ensures
            self@.dom().finite(),
            n == self@.len(),
    {
        self.cache.size()
    }

    /// Removes every entry, whatever its expiry.
    pub fn clear(&mut self)
        ensures
            final(self)@ == Map::<CredentialKey, CachedClient<BybitClient>>::empty(),
            final(self).lifetime_secs() == old(self).lifetime_secs(),
    {
        self.cache.clear()
    }

    /// The lifetime, in seconds, given to the entries written from now on.
    pub fn lifetime(&self) -> (secs: u64)
        ensures
            secs == self.lifetime_secs(),
    {
        self.cache.lifetime()
    }
}

} // verus!
