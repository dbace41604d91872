use synapse::codec::CacheResponce;
use synapse::secondary::SyncConfig;
use synapse::store::L1Cache;
use synapse::subscriber::BACKOFF_INITIAL_MS;
use synapse::subscriber::BACKOFF_MAX_MS;
use synapse::subscriber::apply_update;
use synapse::subscriber::next_backoff_ms;
use synapse::subscriber::parse_update;

fn default_config() -> SyncConfig {
    SyncConfig::from_settings(None, None)
}

#[test]
fn config_defaults() {
    let config = default_config();
    assert_eq!(config.key_prefix, "synapse:cache:");
    assert_eq!(config.channel, "synapse:cache_updates");
}

#[test]
fn config_overrides() {
    let config = SyncConfig::from_settings(Some("p:".to_string()), Some("chan".to_string()));
    assert_eq!(config.key_prefix, "p:");
    assert_eq!(config.channel, "chan");
}

#[test]
fn prefixed_key_prepends_prefix() {
    let config = default_config();
    assert_eq!(config.prefixed_key("alpha"), "synapse:cache:alpha");
}

#[test]
fn prefixed_key_empty_prefix() {
    let config = SyncConfig::from_settings(Some(String::new()), None);
    assert_eq!(config.prefixed_key("alpha"), "alpha");
}

#[test]
fn update_payload_roundtrip() {
    let config = default_config();
    let plan = config.plan_set("k1", Some(5)).expect("a planned write");
    assert_eq!(plan.redis_key, "synapse:cache:k1");
    assert_eq!(plan.ttl_secs, Some(5));

    let update = parse_update(&config, &plan.payload).expect("the payload reads back");
    assert_eq!(update.key, "k1");
    assert_eq!(update.ttl_secs, Some(5));
    assert_eq!(update.fetch_key, "synapse:cache:k1");
}

#[test]
fn update_payload_roundtrip_without_ttl() {
    let config = default_config();
    let plan = config.plan_set("other", None).expect("a planned write");
    let update = parse_update(&config, &plan.payload).expect("the payload reads back");
    assert_eq!(update.key, "other");
    assert_eq!(update.ttl_secs, None);
}

#[test]
fn parse_update_skips_garbage() {
    let config = default_config();
    assert!(parse_update(&config, &[0xC1, 0xFF, 0x00, 0x07]).is_none());
}

#[test]
fn apply_update_stores_fetched_value() {
    let mut store = L1Cache::new(10);
    apply_update(&mut store, "k".to_string(), Some(60), Some(b"peer".to_vec()), 1_000);
    assert!(matches!(
        store.get_at("k", 1_500),
        CacheResponce::Hit(v) if v == b"peer"
    ));
}

#[test]
fn apply_update_without_value_changes_nothing() {
    let mut store = L1Cache::new(10);
    apply_update(&mut store, "k".to_string(), None, None, 1_000);
    assert!(matches!(store.get_at("k", 1_500), CacheResponce::Miss));
}

#[test]
fn backoff_doubles_up_to_cap() {
    let mut wait = BACKOFF_INITIAL_MS;
    let mut seen: Vec<u64> = Vec::new();
    for _ in 0..10 {
        seen.push(wait);
        wait = next_backoff_ms(wait, true);
    }
    assert_eq!(
        seen,
        vec![200, 400, 800, 1600, 3200, 6400, 12800, 25600, 30000, 30000]
    );
    assert_eq!(wait, BACKOFF_MAX_MS);
}

#[test]
fn backoff_resets_after_clean_pass() {
    assert_eq!(next_backoff_ms(25600, false), BACKOFF_INITIAL_MS);
    assert_eq!(next_backoff_ms(BACKOFF_MAX_MS, false), BACKOFF_INITIAL_MS);
}
