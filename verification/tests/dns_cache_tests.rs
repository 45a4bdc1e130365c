use network_tool::dns::{plan_resolution, plan_resolution_at, remember_lookup, remember_lookup_at, Resolution};
use network_tool::dns_cache::DnsCache;

const SEC: u64 = 1_000_000_000;

fn ips(list: &[&str]) -> Vec<String> {
    list.iter().map(|s| s.to_string()).collect()
}

#[test]
fn new_cache_is_empty() {
    let c = DnsCache::new(4);
    assert_eq!(c.len(), 0);
    assert_eq!(c.get_at("example.com", 0), None);
}

#[test]
fn get_returns_stored_addresses_until_expiry() {
    let mut c = DnsCache::new(4);
    c.set_at("example.com".to_string(), ips(&["93.184.216.34"]), 60, 5 * SEC);
    assert_eq!(c.get_at("example.com", 5 * SEC), Some(ips(&["93.184.216.34"])));
    assert_eq!(c.get_at("example.com", 65 * SEC - 1), Some(ips(&["93.184.216.34"])));
    assert_eq!(c.get_at("example.com", 65 * SEC), None);
    assert_eq!(c.get_at("other.com", 5 * SEC), None);
    // an expired record is not dropped by a lookup
    assert_eq!(c.len(), 1);
}

#[test]
fn zero_ttl_is_never_live() {
    let mut c = DnsCache::new(4);
    c.set_at("a".to_string(), ips(&["1.1.1.1"]), 0, 7);
    assert_eq!(c.get_at("a", 7), None);
    assert_eq!(c.len(), 1);
}

#[test]
fn storing_again_replaces_the_record() {
    let mut c = DnsCache::new(4);
    c.set_at("a".to_string(), ips(&["1.1.1.1"]), 10, 0);
    c.set_at("a".to_string(), ips(&["2.2.2.2", "3.3.3.3"]), 100, SEC);
    assert_eq!(c.len(), 1);
    assert_eq!(c.get_at("a", 50 * SEC), Some(ips(&["2.2.2.2", "3.3.3.3"])));
}

#[test]
fn full_cache_drops_expired_records_first() {
    let mut c = DnsCache::new(2);
    c.set_at("old".to_string(), ips(&["1.0.0.1"]), 1, 0);
    c.set_at("keep".to_string(), ips(&["1.0.0.2"]), 100, 0);
    c.set_at("new".to_string(), ips(&["1.0.0.3"]), 100, 10 * SEC);
    assert_eq!(c.len(), 2);
    assert_eq!(c.get_at("keep", 10 * SEC), Some(ips(&["1.0.0.2"])));
    assert_eq!(c.get_at("new", 10 * SEC), Some(ips(&["1.0.0.3"])));
    assert_eq!(c.get_at("old", 0), None);
}

#[test]
fn full_cache_evicts_the_record_expiring_first() {
    let mut c = DnsCache::new(2);
    c.set_at("late".to_string(), ips(&["1.0.0.1"]), 300, 0);
    c.set_at("soon".to_string(), ips(&["1.0.0.2"]), 30, 0);
    c.set_at("third".to_string(), ips(&["1.0.0.3"]), 60, SEC);
    assert_eq!(c.len(), 2);
    assert_eq!(c.get_at("soon", SEC), None);
    assert_eq!(c.get_at("late", SEC), Some(ips(&["1.0.0.1"])));
    assert_eq!(c.get_at("third", SEC), Some(ips(&["1.0.0.3"])));
}

#[test]
fn refreshing_a_host_in_a_full_cache_still_evicts() {
    let mut c = DnsCache::new(2);
    c.set_at("a".to_string(), ips(&["1.0.0.1"]), 300, 0);
    c.set_at("b".to_string(), ips(&["1.0.0.2"]), 30, 0);
    // the cache is full, so the earliest record ("b") goes before "a" is stored again
    c.set_at("a".to_string(), ips(&["1.0.0.9"]), 300, SEC);
    assert_eq!(c.len(), 1);
    assert_eq!(c.get_at("b", SEC), None);
    assert_eq!(c.get_at("a", SEC), Some(ips(&["1.0.0.9"])));
}

#[test]
fn cache_of_size_zero_holds_one_record() {
    let mut c = DnsCache::new(0);
    c.set_at("a".to_string(), ips(&["1.0.0.1"]), 1, 0);
    assert_eq!(c.len(), 1);
    // once "a" has expired it is dropped to make room
    c.set_at("b".to_string(), ips(&["1.0.0.2"]), 1, 5 * SEC);
    assert_eq!(c.len(), 1);
    assert_eq!(c.get_at("b", 5 * SEC), Some(ips(&["1.0.0.2"])));
    assert_eq!(c.get_at("a", 0), None);
}

#[test]
fn clear_expired_drops_only_expired_records() {
    let mut c = DnsCache::new(8);
    c.set_at("a".to_string(), ips(&["1.0.0.1"]), 1, 0);
    c.set_at("b".to_string(), ips(&["1.0.0.2"]), 10, 0);
    c.set_at("c".to_string(), ips(&["1.0.0.3"]), 2, 0);
    c.clear_expired_at(2 * SEC);
    assert_eq!(c.len(), 1);
    assert_eq!(c.get_at("b", 2 * SEC), Some(ips(&["1.0.0.2"])));
}

#[test]
fn clock_driven_cache_round_trip() {
    let mut c = DnsCache::new(3);
    c.set("example.org".to_string(), ips(&["10.0.0.1", "10.0.0.2"]), 3600);
    assert_eq!(c.get("example.org"), Some(ips(&["10.0.0.1", "10.0.0.2"])));
    assert_eq!(c.get("missing.org"), None);
    c.clear_expired();
    assert_eq!(c.len(), 1);
    c.set("gone.org".to_string(), ips(&["10.0.0.3"]), 0);
    assert_eq!(c.get("gone.org"), None);
    c.clear_expired();
    assert_eq!(c.len(), 1);
}

#[test]
fn resolution_uses_live_cached_records() {
    let mut c = DnsCache::new(4);
    assert_eq!(plan_resolution_at(&c, "example.com", 0), Resolution::Lookup);
    remember_lookup_at(&mut c, "example.com", Some((ips(&["93.184.216.34"]), 30)), 0);
    assert_eq!(plan_resolution_at(&c, "example.com", 29 * SEC), Resolution::Cached(ips(&["93.184.216.34"])));
    assert_eq!(plan_resolution_at(&c, "example.com", 30 * SEC), Resolution::Lookup);
    remember_lookup_at(&mut c, "nx.invalid", None, SEC);
    assert_eq!(c.len(), 1);
    assert_eq!(plan_resolution_at(&c, "nx.invalid", SEC), Resolution::Lookup);
}

#[test]
fn resolution_with_the_cache_clock() {
    let mut c = DnsCache::new(2);
    assert_eq!(plan_resolution(&c, "example.net"), Resolution::Lookup);
    remember_lookup(&mut c, "example.net", Some((ips(&["10.1.1.1"]), 3600)));
    assert_eq!(plan_resolution(&c, "example.net"), Resolution::Cached(ips(&["10.1.1.1"])));
}

#[test]
fn zero_capacity_cache_accepts_a_store_after_an_instant_expiry() {
    let mut c = DnsCache::new(0);
    c.set("a".to_string(), ips(&["1.0.0.1"]), 0);
    c.set("b".to_string(), ips(&["1.0.0.2"]), 3600);
    assert_eq!(c.len(), 1);
    assert_eq!(c.get("b"), Some(ips(&["1.0.0.2"])));
}
