//! Hash adapters: stateless markers that plug one hash algorithm each into a
//! container that is generic over its hash builder.
//!
//! An adapter does one thing: it builds a fresh hasher. `SeaHash` builds
//! seahash's streaming hasher with its fixed default seeds, `RustC` builds the
//! Fx hasher of rustc-hash in its zero state. Nothing is shared between the
//! hashers that one adapter builds.

use rustc_hash::FxHasher;
use seahash::SeaHasher;
use std::hash::BuildHasher;
use std::hash::Hasher;
use vstd::prelude::*;

verus! {

/// seahash's streaming hasher, opaque to the verifier.
#[verifier::external_type_specification]
#[verifier::external_body]
pub struct ExSeaHasher(SeaHasher);

/// The Fx hasher of rustc-hash, opaque to the verifier.
#[verifier::external_type_specification]
#[verifier::external_body]
pub struct ExFxHasher(FxHasher);

/// The bytes that have been written into a seahash hasher since it was built,
/// in order. How they were split over the writes does not matter to the
/// hasher, so neither does it here.
pub uninterp spec fn sea_fed(hasher: SeaHasher) -> Seq<u8>;

/// The seahash digest, under the default seeds, of a sequence of bytes: what
/// `seahash::hash` returns for them. The algorithm reads its input as
/// little-endian words on every target, so the digest depends on the bytes
/// alone.
pub uninterp spec fn sea_digest(bytes: Seq<u8>) -> u64;

/// The one word of state of an Fx hasher.
pub uninterp spec fn fx_word(hasher: FxHasher) -> usize;

/// The state word that an Fx hasher holds after a write: what one write makes
/// of the word before it and of the bytes written. The hasher keeps no other
/// state, so on one target this is a function of the two. Which word comes
/// out for given bytes is left open: the algorithm folds the bytes a machine
/// word at a time and in the machine's byte order.
pub uninterp spec fn fx_folded(word: usize, bytes: Seq<u8>) -> usize;

/// `SeaHasher::new` gives a hasher with the default seeds into which nothing
/// has been written.
pub assume_specification[ SeaHasher::new ]() -> (hasher: SeaHasher)
    ensures
        sea_fed(hasher) == Seq::<u8>::empty(),
;

/// `Hasher::write` of `SeaHasher` appends the bytes to what the hasher has
/// been fed. The hasher counts the bytes in a `u64` and adds to that count
/// without a check, so the total must stay within `u64`.
pub assume_specification[ <SeaHasher as Hasher>::write ](hasher: &mut SeaHasher, bytes: &[u8])
    requires
        sea_fed(*old(hasher)).len() + bytes.len() <= u64::MAX,
    ensures
        sea_fed(*final(hasher)) == sea_fed(*old(hasher)) + bytes@,
;

/// `Hasher::finish` of `SeaHasher` gives the seahash digest of the bytes fed
/// so far and leaves the hasher as it was.
pub assume_specification[ <SeaHasher as Hasher>::finish ](hasher: &SeaHasher) -> (digest: u64)
    ensures
        digest == sea_digest(sea_fed(*hasher)),
;

/// `FxHasher::default` gives a hasher whose state word is zero.
pub assume_specification[ <FxHasher as Default>::default ]() -> (hasher: FxHasher)
    ensures
        fx_word(hasher) == 0,
;

/// `Hasher::write` of `FxHasher` folds the bytes into the state word and
/// touches nothing else: the new word depends on the old word and on the
/// bytes alone. Writing no bytes leaves the word as it was.
pub assume_specification[ <FxHasher as Hasher>::write ](hasher: &mut FxHasher, bytes: &[u8])
    ensures
        fx_word(*final(hasher)) == fx_folded(fx_word(*old(hasher)), bytes@),
        bytes@.len() == 0 ==> fx_word(*final(hasher)) == fx_word(*old(hasher)),
;

/// `Hasher::finish` of `FxHasher` gives the state word, widened to `u64`.
pub assume_specification[ <FxHasher as Hasher>::finish ](hasher: &FxHasher) -> (digest: u64)
    ensures
        digest == fx_word(*hasher),
;

/// The adapter for seahash.
#[derive(Clone, Copy, Debug)]
pub struct SeaHash;

impl SeaHash {
    #[inline(always)]
    pub fn new() -> (adapter: Self)
        ensures
            adapter == SeaHash,
    {
        Self::default()
    }

    /// Builds a hasher, feeds it `bytes` in one write and finishes it. The
    /// digest is a function of the bytes: two hashers built by any two
    /// `SeaHash` adapters, in this process or another, agree on equal input.
    pub fn digest(&self, bytes: &[u8]) -> (digest: u64)
        ensures
            digest == sea_digest(bytes@),
    {
        let mut hasher = self.build_hasher();
        hasher.write(bytes);
        assert(Seq::<u8>::empty() + bytes@ =~= bytes@);
        hasher.finish()
    }
}

impl Default for SeaHash {
    fn default() -> (adapter: Self)
        ensures
            adapter == SeaHash,
    {
        SeaHash
    }
}

impl BuildHasher for SeaHash {
    type Hasher = SeaHasher;

    /// A fresh hasher: nothing has been written into it, whatever was done
    /// with the hashers built before.
    fn build_hasher(&self) -> (hasher: SeaHasher)
        ensures
            sea_fed(hasher) == Seq::<u8>::empty(),
    {
        SeaHasher::new()
    }
}

/// The adapter for the Fx hash of rustc-hash.
#[derive(Clone, Copy, Debug)]
pub struct RustC;

impl RustC {
    #[inline(always)]
    pub fn new() -> (adapter: Self)
        ensures
            adapter == RustC,
    {
        Self::default()
    }

    /// Builds a hasher, feeds it `bytes` in one write and finishes it. The
    /// digest is what one write makes of the zero word and the bytes: two
    /// hashers built by any two `RustC` adapters agree on equal input, and
    /// with a bare `FxHasher::default()` fed the same bytes. The Fx hash reads
    /// its input in machine words, so the digest of a given input may differ
    /// from one target to another; that of the empty input is zero everywhere.
    pub fn digest(&self, bytes: &[u8]) -> (digest: u64)
        ensures
            digest == fx_folded(0, bytes@),
            bytes@.len() == 0 ==> digest == 0,
    {
        let mut hasher = self.build_hasher();
        hasher.write(bytes);
        hasher.finish()
    }
}

impl Default for RustC {
    fn default() -> (adapter: Self)
        ensures
            adapter == RustC,
    {
        RustC
    }
}

impl BuildHasher for RustC {
    type Hasher = FxHasher;

    /// A fresh hasher in the zero state, whatever was done with the hashers
    /// built before.
    fn build_hasher(&self) -> (hasher: FxHasher)
        ensures
            fx_word(hasher) == 0,
    {
        FxHasher::default()
    }
}

} // verus!
