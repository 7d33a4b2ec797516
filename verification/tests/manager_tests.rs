use rucord::error::WebSocketError;
use rucord::manager::{WebSocketManager, WebSocketManagerOptions};
use rucord::structures::{GatewayBotObject, SessionStartLimitObject};

fn capacity(shards: u64, remaining: u64, max_concurrency: u64) -> GatewayBotObject {
    GatewayBotObject {
        url: "wss://gw.example".to_string(),
        shards,
        session_start_limit: SessionStartLimitObject {
            total: 1000,
            remaining,
            reset_after: 3_600_000,
            max_concurrency,
        },
    }
}

fn manager() -> WebSocketManager {
    WebSocketManager::new(WebSocketManagerOptions {
        token: "tok".to_string(),
        intents: 512,
    })
}

#[test]
fn scenario_capacity_exhausted() {
    let mut m = manager();
    m.store_gateway_info(capacity(4, 1, 1), 0);
    let r = m.connect_plan();
    assert_eq!(
        r.unwrap_err(),
        WebSocketError::NotEnoughSessionsRemaining(1, 4)
    );
    // No bucket is laid out, so nothing would be opened.
    assert_eq!(m.buckets.len(), 0);
}

#[test]
fn connect_plan_partitions_shards_into_buckets() {
    let mut m = manager();
    m.store_gateway_info(capacity(5, 100, 2), 0);
    m.connect_plan().unwrap();
    let sizes: Vec<usize> = m.buckets.iter().map(|b| b.shard_ids.len()).collect();
    assert_eq!(sizes, vec![2, 2, 1]);
    let mut all = Vec::new();
    for b in &m.buckets {
        all.extend(b.shard_ids.iter().copied());
    }
    assert_eq!(all, vec![0, 1, 2, 3, 4]);
}

#[test]
fn buckets_of_exact_width_have_no_trailing_stub() {
    let mut m = manager();
    m.store_gateway_info(capacity(4, 100, 2), 0);
    m.connect_plan().unwrap();
    let sizes: Vec<usize> = m.buckets.iter().map(|b| b.shard_ids.len()).collect();
    assert_eq!(sizes, vec![2, 2]);
}

#[test]
fn shard_ids_enumerate_and_memoize() {
    let mut m = manager();
    m.store_gateway_info(capacity(3, 100, 1), 0);
    let ids = m.shard_ids();
    assert_eq!(ids, vec![0, 1, 2]);
    // A refreshed capacity does not disturb the memoized list.
    m.store_gateway_info(capacity(7, 100, 1), 1);
    let ids = m.shard_ids();
    assert_eq!(ids, vec![0, 1, 2]);
}

#[test]
fn capacity_freshness_follows_the_reset_window() {
    let mut m = manager();
    assert!(!m.capacity_is_fresh(0));
    m.store_gateway_info(capacity(1, 100, 1), 1_000);
    assert!(m.capacity_is_fresh(1_000));
    assert!(m.capacity_is_fresh(1_000 + 3_599_999));
    assert!(!m.capacity_is_fresh(1_000 + 3_600_000));
}

#[test]
fn exact_budget_is_accepted() {
    let mut m = manager();
    m.store_gateway_info(capacity(4, 4, 2), 0);
    assert!(m.connect_plan().is_ok());
}
