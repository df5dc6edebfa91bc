//! A micro-benchmark harness for hash maps and hash sets with pluggable hash
//! functions: the adapters that plug an algorithm in, the scenarios that are
//! timed, the harness that times one operation at a time, and the names under
//! which the results are reported.

pub mod adapters;
pub mod clock;
pub mod container;
pub mod harness;
pub mod naming;
pub mod scenario;
pub mod settings;

pub use adapters::RustC;
pub use adapters::SeaHash;
