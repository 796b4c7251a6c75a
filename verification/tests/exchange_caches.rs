use std::sync::Arc;
use trade_sdk::cache::BybitClientCache;
use trade_sdk::caches::BingxClientsCache;
use trade_sdk::caches::BybitClientsCache;
use trade_sdk::caches::NANOS_PER_SEC;
use trade_sdk::session::SharedSessionManager;

fn open_session() -> SharedSessionManager {
    let mut session = SharedSessionManager::new();
    session.setup(8).unwrap();
    session
}

#[test]
fn bybit_scenario_build_hit_and_flipped_flag() {
    let session = open_session();
    let mut cache = BybitClientsCache::new();
    cache.configure(600);
    let built = cache
        .get_or_create("k1".to_string(), "s1".to_string(), false, false, &session)
        .unwrap();
    assert_eq!(cache.size(), 1);
    let hit = cache.get("k1", "s1", false, false).unwrap();
    assert!(Arc::ptr_eq(&built, &hit));
    let again = cache
        .get_or_create("k1".to_string(), "s1".to_string(), false, false, &session)
        .unwrap();
    assert!(Arc::ptr_eq(&built, &again));
    assert_eq!(cache.size(), 1);
    assert!(cache.get("k1", "s1", true, false).is_none());
    assert!(cache.get("k1", "s1", false, true).is_none());
}

#[test]
fn bybit_builds_the_client_from_the_credentials() {
    let session = open_session();
    let mut cache = BybitClientsCache::new();
    let client = cache
        .get_or_create("key".to_string(), "secret".to_string(), true, false, &session)
        .unwrap();
    let base = client.http().base_client();
    assert_eq!(base.base_url, "https://api-testnet.bybit.com");
    assert_eq!(base.api_key.as_deref(), Some("key"));
    assert_eq!(base.api_secret.as_deref(), Some("secret"));
    assert_eq!(base.recv_window, 5000);
    assert!(client.uses_shared_session());
}

#[test]
fn bybit_works_without_a_shared_session() {
    let session = SharedSessionManager::new();
    let mut cache = BybitClientsCache::new();
    let client = cache
        .get_or_create("key".to_string(), "secret".to_string(), false, true, &session)
        .unwrap();
    assert!(!client.uses_shared_session());
    assert_eq!(client.http().base_client().base_url, "https://api-demo.bybit.com");
}

#[test]
fn bingx_demo_flag_separates_entries() {
    let session = open_session();
    let mut cache = BingxClientsCache::new();
    let live = cache
        .get_or_create("k".to_string(), "s".to_string(), false, false, &session)
        .unwrap();
    assert!(cache.get("k", "s", false, true).is_none());
    let demo = cache
        .get_or_create("k".to_string(), "s".to_string(), false, true, &session)
        .unwrap();
    assert!(!Arc::ptr_eq(&live, &demo));
    assert_eq!(cache.size(), 2);
    assert_eq!(live.http().base_client().base_url, "https://open-api.bingx.com");
    assert_eq!(demo.http().base_client().base_url, "https://open-api-vst.bingx.com");
    assert!(Arc::ptr_eq(&cache.get("k", "s", false, false).unwrap(), &live));
    assert!(Arc::ptr_eq(&cache.get("k", "s", false, true).unwrap(), &demo));
}

#[test]
fn bingx_add_get_sweep_and_clear() {
    let session = open_session();
    let mut cache = BingxClientsCache::new();
    cache.configure(1);
    assert_eq!(cache.lifetime(), 1);
    let client = Arc::new(
        trade_sdk::bingx::BingxClient::new(None, None, false, 5000, &session).unwrap(),
    );
    cache.add_at(Arc::clone(&client), "k", "s", false, false, 0);
    assert!(Arc::ptr_eq(&cache.get_at("k", "s", false, false, 1).unwrap(), &client));
    assert!(cache.get_at("k", "s", false, false, NANOS_PER_SEC).is_none());
    assert_eq!(cache.size(), 1);
    assert_eq!(cache.cleanup_expired_at(NANOS_PER_SEC), 1);
    assert_eq!(cache.size(), 0);
    cache.add(client, "k", "s", true, true);
    assert!(cache.get("k", "s", true, true).is_some());
    cache.clear();
    assert_eq!(cache.size(), 0);
}

#[test]
fn bingx_get_or_create_at_rebuilds_after_expiry() {
    let session = open_session();
    let mut cache = BingxClientsCache::new();
    cache.configure(1);
    let first = cache
        .get_or_create_at("k".to_string(), "s".to_string(), false, false, &session, 0, 0)
        .unwrap();
    let same = cache
        .get_or_create_at("k".to_string(), "s".to_string(), false, false, &session, 5, 5)
        .unwrap();
    assert!(Arc::ptr_eq(&first, &same));
    let second = cache
        .get_or_create_at(
            "k".to_string(),
            "s".to_string(),
            false,
            false,
            &session,
            NANOS_PER_SEC,
            NANOS_PER_SEC,
        )
        .unwrap();
    assert!(!Arc::ptr_eq(&first, &second));
    assert_eq!(cache.size(), 1);
}

#[test]
fn first_interface_names_demo_before_testnet() {
    let session = open_session();
    let mut cache = BybitClientCache::new();
    assert_eq!(cache.lifetime(), 600);
    let built = cache
        .get_or_create("k".to_string(), "s".to_string(), true, false, &session)
        .unwrap();
    assert_eq!(built.http().base_client().base_url, "https://api-demo.bybit.com");
    assert!(Arc::ptr_eq(&cache.get("k", "s", true, false).unwrap(), &built));
    assert!(cache.get("k", "s", false, true).is_none());
    assert_eq!(cache.size(), 1);
    assert_eq!(cache.cleanup_expired(), 0);
    cache.add(Arc::clone(&built), "k2", "s2", false, false);
    assert_eq!(cache.size(), 2);
    cache.clear();
    assert_eq!(cache.size(), 0);
}
