use bench_hash_2023::adapters::RustC;
use bench_hash_2023::adapters::SeaHash;
use std::collections::HashMap;
use std::collections::HashSet;
use std::hash::BuildHasher;
use std::hash::Hasher;

#[test]
fn sea_digest_of_known_bytes() {
    assert_eq!(SeaHash::new().digest(b"abc"), 9257550784264072582);
    assert_eq!(SeaHash::new().digest(b""), 14492805990617963705);
    assert_eq!(SeaHash::new().digest(b"k"), 2580355813004382039);
}

#[test]
fn sea_digest_is_what_seahash_computes() {
    let inputs: Vec<&[u8]> = vec![b"", b"k", b"abc", b"12345", b"0123456789abcdef0123456789abcdef0123456789"];
    for input in inputs {
        assert_eq!(SeaHash::new().digest(input), seahash::hash(input));
    }
}

#[test]
fn sea_digest_agrees_across_instances() {
    let first = SeaHash::new();
    let second = SeaHash::default();
    let copy = first;
    assert_eq!(first.digest(b"abc"), second.digest(b"abc"));
    assert_eq!(first.digest(b"abc"), copy.digest(b"abc"));
    assert_eq!(first.digest(b"abc"), first.digest(b"abc"));
}

#[test]
fn sea_digest_tells_inputs_apart() {
    let adapter = SeaHash::new();
    assert_ne!(adapter.digest(b"abc"), adapter.digest(b"abd"));
    assert_ne!(adapter.digest(b"abc"), adapter.digest(b""));
    assert_ne!(adapter.digest(b"ab"), adapter.digest(b"abc"));
}

#[test]
fn sea_hashers_share_no_state() {
    let adapter = SeaHash::new();
    let mut first = adapter.build_hasher();
    first.write(b"something written into the first hasher");
    let mut second = adapter.build_hasher();
    second.write(b"abc");
    assert_eq!(second.finish(), adapter.digest(b"abc"));
    assert_ne!(first.finish(), second.finish());
    let untouched = adapter.build_hasher();
    assert_eq!(untouched.finish(), adapter.digest(b""));
}

#[test]
fn sea_hasher_ignores_how_writes_are_split() {
    let adapter = SeaHash::new();
    let mut split = adapter.build_hasher();
    split.write(b"0123456789");
    split.write(b"abcdef0123456789abcdef");
    split.write(b"");
    split.write(b"0123456789");
    assert_eq!(split.finish(), adapter.digest(b"0123456789abcdef0123456789abcdef0123456789"));
}

#[test]
fn rustc_digest_of_nothing_is_zero() {
    assert_eq!(RustC::new().digest(b""), 0);
    assert_eq!(RustC::default().build_hasher().finish(), 0);
}

#[test]
fn rustc_digest_agrees_across_instances() {
    let first = RustC::new();
    let second = RustC::default();
    assert_eq!(first.digest(b"abc"), second.digest(b"abc"));
    assert_eq!(first.digest(b"abc"), first.digest(b"abc"));
    assert_ne!(first.digest(b"abc"), first.digest(b"abd"));
    assert_ne!(first.digest(b"abc"), 0);
}

#[test]
fn rustc_digest_of_known_bytes_on_a_little_endian_64_bit_target() {
    if usize::BITS == 64 && u16::from_ne_bytes([1, 0]) == 1 {
        assert_eq!(RustC::new().digest(b"abc"), 14078489212813478179);
    }
}

#[test]
fn rustc_hashers_share_no_state() {
    let adapter = RustC::new();
    let mut first = adapter.build_hasher();
    first.write(b"something written into the first hasher");
    let mut second = adapter.build_hasher();
    second.write(b"abc");
    assert_eq!(second.finish(), adapter.digest(b"abc"));
    assert_eq!(adapter.build_hasher().finish(), 0);
}

#[test]
fn adapters_plug_into_the_standard_containers() {
    let mut map: HashMap<&str, usize, SeaHash> = HashMap::default();
    assert_eq!(map.insert("k", 1), None);
    assert_eq!(map.insert("k", 2), Some(1));
    assert_eq!(map.get("k"), Some(&2));
    let mut set: HashSet<i32, RustC> = HashSet::with_hasher(RustC::new());
    assert!(set.insert(42));
    assert!(!set.insert(42));
    assert!(set.remove(&42));
    assert!(!set.contains(&42));
}

#[test]
fn rustc_digest_is_that_of_a_bare_fx_hasher() {
    let inputs: Vec<&[u8]> = vec![b"", b"k", b"abc", b"12345", b"0123456789abcdef0123456789abcdef0123456789"];
    for input in inputs {
        let mut bare = rustc_hash::FxHasher::default();
        bare.write(input);
        assert_eq!(RustC::new().digest(input), bare.finish());
    }
}

#[test]
fn two_rustc_hashers_fed_the_same_bytes_agree() {
    let adapter = RustC::new();
    let mut first = adapter.build_hasher();
    let mut second = adapter.build_hasher();
    first.write(b"abc");
    second.write(b"abc");
    assert_eq!(first.finish(), second.finish());
    assert_eq!(first.finish(), adapter.digest(b"abc"));
}

#[test]
fn the_adapters_stand_at_the_root_of_the_crate() {
    let sea: bench_hash_2023::SeaHash = SeaHash::new();
    let fx: bench_hash_2023::RustC = RustC::new();
    assert_eq!(sea.digest(b"abc"), bench_hash_2023::SeaHash::new().digest(b"abc"));
    assert_eq!(fx.digest(b"abc"), bench_hash_2023::RustC::new().digest(b"abc"));
}
