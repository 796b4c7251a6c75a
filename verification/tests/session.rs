use std::sync::Arc;
use trade_sdk::bingx::BingxClient;
use trade_sdk::bybit::BybitClient;
use trade_sdk::session::SharedSessionManager;
use trade_sdk::session::CLOSE_GRACE_MILLIS;

#[test]
fn new_manager_has_no_session() {
    let manager = SharedSessionManager::new();
    assert!(!manager.is_initialized());
    assert_eq!(manager.max_connections(), 0);
}

#[test]
fn setup_twice_keeps_the_first_session() {
    let mut manager = SharedSessionManager::new();
    manager.setup(100).unwrap();
    assert!(manager.is_initialized());
    assert_eq!(manager.max_connections(), 100);
    let first = manager.get_client();
    manager.setup(7).unwrap();
    assert_eq!(manager.max_connections(), 100);
    assert!(Arc::ptr_eq(&first, &manager.get_client()));
}

#[test]
fn close_drops_the_session_and_keeps_handles_good() {
    let mut manager = SharedSessionManager::new();
    assert!(!manager.close());
    manager.setup(10).unwrap();
    let held = manager.get_client();
    assert!(manager.close());
    assert!(!manager.is_initialized());
    assert_eq!(manager.max_connections(), 0);
    assert!(!manager.close());
    assert_eq!(Arc::strong_count(&held), 1);
    assert_eq!(CLOSE_GRACE_MILLIS, 200);
}

#[test]
fn setup_after_close_opens_a_new_session() {
    let mut manager = SharedSessionManager::new();
    manager.setup(10).unwrap();
    let first = manager.get_client();
    manager.close();
    manager.setup(20).unwrap();
    assert_eq!(manager.max_connections(), 20);
    assert!(!Arc::ptr_eq(&first, &manager.get_client()));
}

#[test]
fn clients_share_the_open_session() {
    let mut manager = SharedSessionManager::new();
    let alone = BybitClient::new(None, None, false, false, 5000, None, &manager).unwrap();
    assert!(!alone.uses_shared_session());
    manager.setup(4).unwrap();
    let bybit = BybitClient::new(None, None, false, false, 5000, None, &manager).unwrap();
    let bingx = BingxClient::new(None, None, false, 5000, &manager).unwrap();
    assert!(bybit.uses_shared_session());
    assert!(bingx.http().is_shared_session_enabled());
    assert!(Arc::ptr_eq(&bybit.http().base_client().client, &manager.get_client()));
    assert!(Arc::ptr_eq(&bingx.http().base_client().client, &manager.get_client()));
}
