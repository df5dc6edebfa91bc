[package]
name = "bench_hash_2023"
version = "0.1.0"
edition = "2021"
publish = false

[dependencies]
seahash = "4.1"
rustc-hash = "1.1"
codspeed-criterion-compat = "2"
ahash = "0.8"
fnv = "1"
hashbrown = "0.14"
