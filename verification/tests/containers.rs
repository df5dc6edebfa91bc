use bench_hash_2023::adapters::RustC;
use bench_hash_2023::adapters::SeaHash;
use bench_hash_2023::container::Container;
use bench_hash_2023::container::MapCase;
use bench_hash_2023::container::SetCase;
use std::collections::hash_map::RandomState;

#[test]
fn a_new_map_case_is_empty() {
    let mut case: MapCase<String, String, SeaHash> = MapCase::new("k".to_string(), "12345".to_string());
    assert!(case.map.is_empty());
    assert_eq!(case.key, "k");
    assert_eq!(case.value, "12345");
    assert_eq!(case.lookup(), None);
}

#[test]
fn insert_then_lookup_returns_the_value() {
    let mut case: MapCase<String, String, SeaHash> = MapCase::new("k".to_string(), "12345".to_string());
    assert!(!case.remove());
    case.insert();
    assert_eq!(case.lookup(), Some(&"12345".to_string()));
    assert_eq!(case.map.len(), 1);
}

#[test]
fn remove_then_lookup_finds_nothing() {
    let mut case: MapCase<String, String, SeaHash> = MapCase::new("k".to_string(), "12345".to_string());
    case.insert();
    assert!(case.remove());
    assert_eq!(case.lookup(), None);
    assert!(case.map.is_empty());
    assert!(!case.remove());
}

#[test]
fn insert_on_a_present_key_overwrites() {
    let mut case: MapCase<i32, usize, RustC> = MapCase::new(1, 42);
    case.map.insert(1, 7);
    case.map.insert(2, 8);
    assert_eq!(case.lookup(), Some(&7));
    case.insert();
    assert_eq!(case.lookup(), Some(&42));
    case.insert();
    assert_eq!(case.lookup(), Some(&42));
    assert_eq!(case.map.len(), 2);
    assert_eq!(case.map.get(&2), Some(&8));
}

#[test]
fn remove_leaves_the_other_keys() {
    let mut case: MapCase<usize, &str, RandomState> = MapCase::new(1, "12345");
    case.map.insert(2, "other");
    case.insert();
    assert!(case.remove());
    assert_eq!(case.lookup(), None);
    assert_eq!(case.map.get(&2), Some(&"other"));
}

#[test]
fn the_round_trip_holds_with_every_hash_builder() {
    let mut sea: MapCase<&str, &str, SeaHash> = MapCase::new("k", "12345");
    let mut fx: MapCase<&str, &str, RustC> = MapCase::new("k", "12345");
    let mut std: MapCase<&str, &str, RandomState> = MapCase::new("k", "12345");
    sea.insert();
    fx.insert();
    std.insert();
    assert_eq!(sea.lookup(), Some(&"12345"));
    assert_eq!(fx.lookup(), Some(&"12345"));
    assert_eq!(std.lookup(), Some(&"12345"));
    assert!(sea.remove() && fx.remove() && std.remove());
    assert_eq!(sea.lookup(), None);
    assert_eq!(fx.lookup(), None);
    assert_eq!(std.lookup(), None);
}

#[test]
fn a_set_case_goes_through_the_same_round_trip() {
    let mut case: SetCase<String, SeaHash> = SetCase::new("12345".to_string());
    assert!(case.set.is_empty());
    assert!(!case.remove());
    assert_eq!(case.lookup(), None);
    case.insert();
    assert_eq!(case.lookup(), Some(&"12345".to_string()));
    case.insert();
    assert_eq!(case.set.len(), 1);
    assert!(case.remove());
    assert_eq!(case.lookup(), None);
    assert!(!case.remove());
}

#[test]
fn a_set_case_takes_byte_vectors() {
    let mut case: SetCase<Vec<u8>, RustC> = SetCase::new(Vec::with_capacity(256));
    case.set.insert(vec![1, 2, 3]);
    case.insert();
    assert_eq!(case.lookup(), Some(&Vec::new()));
    assert_eq!(case.set.len(), 2);
    assert!(case.remove());
    assert_eq!(case.set.len(), 1);
}
