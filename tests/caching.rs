use eth_gas_estimator::{BlockMetricsCache, CacheLookup, Error, GasPriceCache};

#[test]
fn concurrent_misses_share_one_fetch() {
    let mut cache = GasPriceCache::new();
    let ttl = 15_000;
    let mut fetches = 0;
    let mut seen = Vec::new();
    for now in [1_000u64, 1_001, 5_000, 15_999] {
        let price = match cache.lookup(ttl, now) {
            CacheLookup::Hit(p) => p,
            CacheLookup::Refresh => {
                fetches += 1;
                cache.finish_refresh(ttl, now, Ok(42_000_000_000 + fetches)).unwrap()
            }
        };
        seen.push(price);
    }
    assert_eq!(fetches, 1);
    assert!(seen.iter().all(|p| *p == 42_000_000_001));
}

#[test]
fn expired_entry_is_refreshed() {
    let mut cache = GasPriceCache::new();
    assert_eq!(cache.lookup(10, 0), CacheLookup::Refresh);
    assert_eq!(cache.finish_refresh(10, 0, Ok(5)).unwrap(), 5);
    assert_eq!(cache.lookup(10, 9), CacheLookup::Hit(5));
    assert_eq!(cache.lookup(10, 10), CacheLookup::Refresh);
    assert_eq!(cache.finish_refresh(10, 10, Ok(6)).unwrap(), 6);
    assert_eq!(cache.lookup(10, 12), CacheLookup::Hit(6));
}

#[test]
fn zero_ttl_bypasses_the_cache() {
    let mut cache = GasPriceCache::new();
    for (i, now) in [0u64, 0, 1, 2].iter().enumerate() {
        assert_eq!(cache.lookup(0, *now), CacheLookup::Refresh);
        assert_eq!(cache.finish_refresh(0, *now, Ok(i as u128)).unwrap(), i as u128);
    }
    assert_eq!(cache.lookup(10, 2), CacheLookup::Refresh);
}

#[test]
fn failed_fetch_leaves_the_entry() {
    let mut cache = GasPriceCache::new();
    cache.finish_refresh(100, 0, Ok(7)).unwrap();
    match cache.finish_refresh(100, 200, Err("timeout".to_string())) {
        Err(Error::Provider(msg)) => assert_eq!(msg, "Failed to get gas price: timeout"),
        other => panic!("expected a provider failure, got {:?}", other),
    }
    assert_eq!(cache.lookup(100, 50), CacheLookup::Hit(7));
    assert_eq!(cache.lookup(100, 200), CacheLookup::Refresh);
}

#[test]
fn block_number_is_cached_for_its_ttl() {
    let mut cache = BlockMetricsCache::new(1_000);
    assert_eq!(cache.lookup(0), None);
    cache.record(18_000_000, 500);
    assert_eq!(cache.lookup(500), Some(18_000_000));
    assert_eq!(cache.lookup(1_499), Some(18_000_000));
    assert_eq!(cache.lookup(1_500), None);
}
