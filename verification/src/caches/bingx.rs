//! The cache of BingX clients, keyed by credentials and mode flags.

use crate::bingx::BingxClient;
use crate::caches::expired_keys;
use crate::caches::expiry_of;
use crate::caches::lookup;
use crate::caches::stored;
use crate::caches::swept;
use crate::caches::CachedClient;
use crate::caches::ClientsCache;
use crate::caches::CredentialKey;
use crate::clock::MAX_READING;
use crate::error::SdkError;
use crate::handle::share;
use crate::session::SharedSessionManager;
use std::sync::Arc;
use vstd::prelude::*;

verus! {

/// Key of the BingX cache: API key, API secret, demo flag, testnet flag.
pub type BingxCacheKey = (String, String, bool, bool);

/// Receive window, in milliseconds, of the clients that the cache builds.
pub const RECV_WINDOW_MILLIS: u32 = 5000;

/// The key of the client for these credentials and flags.
pub open spec fn key_of(
    api_key: Seq<char>,
    api_secret: Seq<char>,
    testnet: bool,
    demo: bool,
) -> CredentialKey {
    (api_key, api_secret, demo, testnet)
}

/// The key of the client for these credentials and flags.
pub fn make_key(
    api_key: String,
    api_secret: String,
    testnet: bool,
    demo: bool,
) -> (key: BingxCacheKey)
    ensures
        key@ == key_of(api_key@, api_secret@, testnet, demo),
        key.0 == api_key,
        key.1 == api_secret,
{
    (api_key, api_secret, demo, testnet)
}

/// What fetching does on a miss: a client built from the credentials is
/// served and written, or the failure is handed on and nothing is written.
pub open spec fn built_on_miss(
    before: Map<CredentialKey, CachedClient<BingxClient>>,
    api_key: String,
    api_secret: String,
    testnet: bool,
    demo: bool,
    session: &SharedSessionManager,
    expires_at: int,
    fetched: Result<Arc<BingxClient>, SdkError>,
    after: Map<CredentialKey, CachedClient<BingxClient>>,
) -> bool {
    match fetched {
        Ok(client) => {
            &&& client.http_client().made_from(
                Some(api_key),
                Some(api_secret),
                demo,
                RECV_WINDOW_MILLIS,
                session@,
            )
            &&& after == stored(
                before,
                key_of(api_key@, api_secret@, testnet, demo),
                client,
                expires_at as u128,
            )
        },
        Err(e) => session@ is None && e is Http && after == before,
    }
}

/// What fetching does at the instant `looked`: on a hit the cached client is
/// served and the map stays; on a miss see `built_on_miss`.
pub open spec fn fetched_or_built(
    before: Map<CredentialKey, CachedClient<BingxClient>>,
    api_key: String,
    api_secret: String,
    testnet: bool,
    demo: bool,
    session: &SharedSessionManager,
    looked: u128,
    expires_at: int,
    fetched: Result<Arc<BingxClient>, SdkError>,
    after: Map<CredentialKey, CachedClient<BingxClient>>,
) -> bool {
    match lookup(before, key_of(api_key@, api_secret@, testnet, demo), looked) {
        Some(cached) => fetched == Ok::<Arc<BingxClient>, SdkError>(cached) && after == before,
        None => built_on_miss(
            before,
            api_key,
            api_secret,
            testnet,
            demo,
            session,
            expires_at,
            fetched,
            after,
        ),
    }
}

/// Cache of BingX clients, keyed by credentials and mode flags.
pub struct BingxClientsCache {
    cache: ClientsCache<BingxCacheKey, BingxClient>,
}

impl BingxClientsCache {
    /// The entries of the cache, live or not, by key.
    pub closed spec fn view(&self) -> Map<CredentialKey, CachedClient<BingxClient>> {
        self.cache@
    }

    /// The lifetime, in seconds, given to the entries written from now on.
    pub closed spec fn lifetime_secs(&self) -> u64 {
        self.cache.lifetime_secs()
    }

    /// An empty cache with the default lifetime.
    pub fn new() -> (cache: Self)
        ensures
            cache@ == Map::<CredentialKey, CachedClient<BingxClient>>::empty(),
            cache.lifetime_secs() == crate::caches::DEFAULT_LIFETIME_SECS,
    {
        BingxClientsCache { cache: ClientsCache::new() }
    }

    /// Sets the lifetime of the entries written from now on.
    pub fn configure(&mut self, lifetime_seconds: u64)
        ensures
            final(self)@ == old(self)@,
            final(self).lifetime_secs() == lifetime_seconds,
    {
        self.cache.configure(lifetime_seconds)
    }

    /// The lifetime, in seconds, given to the entries written from now on.
    pub fn lifetime(&self) -> (secs: u64)
        ensures
            secs == self.lifetime_secs(),
    {
        self.cache.lifetime()
    }

    /// The reading of the cache's clock.
    pub fn now(&self) -> (nanos: u128)
        ensures
            nanos <= MAX_READING,
    {
        self.cache.now()
    }

    /// The client cached for the credentials and flags, if it is live at
    /// `now`.
    pub fn get_at(
        &self,
        api_key: &str,
        api_secret: &str,
        testnet: bool,
        demo: bool,
        now: u128,
    ) -> (hit: Option<Arc<BingxClient>>)
        ensures
            hit == lookup(self@, key_of(api_key@, api_secret@, testnet, demo), now),
    {
        let key = make_key(api_key.to_owned(), api_secret.to_owned(), testnet, demo);
        self.cache.get_at(&key, now)
    }

    /// The client cached for the credentials and flags, if it is live at the
    /// clock's reading.
    pub fn get(&self, api_key: &str, api_secret: &str, testnet: bool, demo: bool) -> (hit: Option<
        Arc<BingxClient>,
    >)
        ensures
            exists|now: u128|
                now <= MAX_READING && hit == lookup(
                    self@,
                    key_of(api_key@, api_secret@, testnet, demo),
                    now,
                ),
    {
        let now = self.cache.now();
        self.get_at(api_key, api_secret, testnet, demo, now)
    }

    /// Writes `client` under the credentials and flags, to expire one
    /// lifetime after `now`.
    pub fn add_at(
        &mut self,
        client: Arc<BingxClient>,
        api_key: &str,
        api_secret: &str,
        testnet: bool,
        demo: bool,
        now: u128,
    )
        requires
            expiry_of(now, old(self).lifetime_secs()) <= u128::MAX,
        ensures
            final(self)@ == stored(
                old(self)@,
                key_of(api_key@, api_secret@, testnet, demo),
                client,
                expiry_of(now, old(self).lifetime_secs()) as u128,
            ),
            final(self).lifetime_secs() == old(self).lifetime_secs(),
    {
        let key = make_key(api_key.to_owned(), api_secret.to_owned(), testnet, demo);
        self.cache.add_at(key, client, now);
    }

    /// Writes `client` under the credentials and flags, to expire one
    /// lifetime after the clock's reading.
    pub fn add(
        &mut self,
        client: Arc<BingxClient>,
        api_key: &str,
        api_secret: &str,
        testnet: bool,
        demo: bool,
    )
        ensures
            exists|now: u128|
                now <= MAX_READING && final(self)@ == stored(
                    old(self)@,
                    key_of(api_key@, api_secret@, testnet, demo),
                    client,
                    expiry_of(now, old(self).lifetime_secs()) as u128,
                ),
            final(self).lifetime_secs() == old(self).lifetime_secs(),
    {
        let now = self.cache.now();
        self.add_at(client, api_key, api_secret, testnet, demo, now);
    }

    /// Serves a client that was built for the credentials and flags and
    /// writes it under them, to expire one lifetime after `written`; or hands
    /// on the error of the building as it came and writes nothing.
    pub fn store_built_at(
        &mut self,
        built: Result<BingxClient, SdkError>,
        api_key: String,
        api_secret: String,
        testnet: bool,
        demo: bool,
        written: u128,
    ) -> (fetched: Result<Arc<BingxClient>, SdkError>)
        requires
            expiry_of(written, old(self).lifetime_secs()) <= u128::MAX,
        ensures
            match built {
                Ok(client) => {
                    &&& fetched matches Ok(served)
                    &&& served == Arc::new(client)
                    &&& final(self)@ == stored(
                        old(self)@,
                        key_of(api_key@, api_secret@, testnet, demo),
                        served,
                        expiry_of(written, old(self).lifetime_secs()) as u128,
                    )
                },
                Err(e) => fetched matches Err(same) && same == e && final(self)@ == old(self)@,
            },
            final(self).lifetime_secs() == old(self).lifetime_secs(),
    {
        match built {
            Ok(client) => {
                let client = Arc::new(client);
                let key = make_key(api_key, api_secret, testnet, demo);
                self.cache.add_at(key, share(&client), written);
                Ok(client)
            },
            Err(e) => Err(e),
        }
    }

    /// The client cached for the credentials and flags if it is live at
    /// `looked`; otherwise a client built from them, which is first written
    /// to expire one lifetime after `written`. Building cannot fail while the
    /// shared session is open; where it fails nothing is written.
    pub fn get_or_create_at(
        &mut self,
        api_key: String,
        api_secret: String,
        testnet: bool,
        demo: bool,
        session: &SharedSessionManager,
        looked: u128,
        written: u128,
    ) -> (fetched: Result<Arc<BingxClient>, SdkError>)
        requires
            expiry_of(written, old(self).lifetime_secs()) <= u128::MAX,
        ensures
            fetched_or_built(
                old(self)@,
                api_key,
                api_secret,
                testnet,
                demo,
                session,
                looked,
                expiry_of(written, old(self).lifetime_secs()),
                fetched,
                final(self)@,
            ),
            final(self).lifetime_secs() == old(self).lifetime_secs(),
    {
        let key = make_key(api_key, api_secret, testnet, demo);
        match self.cache.get_at(&key, looked) {
            Some(cached) => Ok(cached),
            None => {
                let built = BingxClient::new(
                    Some(key.0.clone()),
                    Some(key.1.clone()),
                    demo,
                    RECV_WINDOW_MILLIS,
                    session,
                );
                self.store_built_at(built, key.0, key.1, testnet, demo, written)
            },
        }
    }

    /// As `get_or_create_at`, with the clock read once for the lookup and, on
    /// a miss, once more for the write after the client was built.
    pub fn get_or_create(
        &mut self,
        api_key: String,
        api_secret: String,
        testnet: bool,
        demo: bool,
        session: &SharedSessionManager,
    ) -> (fetched: Result<Arc<BingxClient>, SdkError>)
        ensures
            exists|looked: u128, written: u128|
                looked <= MAX_READING && written <= MAX_READING && #[trigger] fetched_or_built(
                    old(self)@,
                    api_key,
                    api_secret,
                    testnet,
                    demo,
                    session,
                    looked,
                    expiry_of(written, old(self).lifetime_secs()),
                    fetched,
                    final(self)@,
                ),
            final(self).lifetime_secs() == old(self).lifetime_secs(),
    {
        let looked = self.cache.now();
        let key = make_key(api_key, api_secret, testnet, demo);
        match self.cache.get_at(&key, looked) {
            Some(cached) => {
                assert(fetched_or_built(
                    old(self)@,
                    api_key,
                    api_secret,
                    testnet,
                    demo,
                    session,
                    looked,
                    expiry_of(looked, old(self).lifetime_secs()),
                    Ok(cached),
                    self@,
                ));
                Ok(cached)
            },
            None => {
                let built = BingxClient::new(
                    Some(key.0.clone()),
                    Some(key.1.clone()),
                    demo,
                    RECV_WINDOW_MILLIS,
                    session,
                );
                let written = self.cache.now();
                let fetched = self.store_built_at(built, key.0, key.1, testnet, demo, written);
                assert(fetched_or_built(
                    old(self)@,
                    api_key,
                    api_secret,
                    testnet,
                    demo,
                    session,
                    looked,
                    expiry_of(written, old(self).lifetime_secs()),
                    fetched,
                    self@,
                ));
                fetched
            },
        }
    }

    /// Removes every entry that is not live at `now` and says how many left.
    pub fn cleanup_expired_at(&mut self, now: u128) -> (removed: usize)
        ensures
            final(self)@ == swept(old(self)@, now),
            old(self)@.dom().finite(),
            removed == expired_keys(old(self)@, now).len(),
            final(self).lifetime_secs() == old(self).lifetime_secs(),
    {
        self.cache.cleanup_expired_at(now)
    }

    /// Removes every entry that is not live at the clock's reading and says
    /// how many left.
    pub fn cleanup_expired(&mut self) -> (removed: usize)
        ensures
            old(self)@.dom().finite(),
            exists|now: u128|
                now <= MAX_READING && final(self)@ == swept(old(self)@, now) && removed
                    == expired_keys(old(self)@, now).len(),
            final(self).lifetime_secs() == old(self).lifetime_secs(),
    {
        self.cache.cleanup_expired()
    }

    /// The number of entries, live or not.
    pub fn size(&self) -> (n: usize)
        ensures
            self@.dom().finite(),
            n == self@.len(),
    {
        self.cache.size()
    }

    /// Removes every entry, whatever its expiry.
    pub fn clear(&mut self)
        ensures
            final(self)@ == Map::<CredentialKey, CachedClient<BingxClient>>::empty(),
            final(self).lifetime_secs() == old(self).lifetime_secs(),
    {
        self.cache.clear()
    }
}

} // verus!
