//! Shard routing: the deterministic map from a key's hash to one of N
//! shard indices, and the `Shard` container owning the N locks.

use vstd::prelude::*;

use core::hash::{Hash, Hasher};
use std::collections::hash_map::DefaultHasher;
use vstd::std_specs::hash::DefaultHasherAdditionalSpecFns;

verus! {

/// The shard index chosen for a 64-bit key hash when there are `n` shards:
/// the hash reduced modulo `n`. This is the sole routing rule; `n` is fixed
/// at construction, so a given hash maps to the same index for a
/// structure's whole lifetime.
pub open spec fn spec_index_of(h: u64, n: int) -> int
    recommends
        n > 0,
{
    h as int % n
}

/// The digest that `std`'s `DefaultHasher` produces when fed exactly the
/// byte string `bytes`. Deterministic: a function of the bytes alone.
pub open spec fn spec_hash_bytes(bytes: Seq<u8>) -> u64 {
    DefaultHasher::spec_finish(seq![bytes])
}

/// Reduce a key hash to a shard index, as `spec_index_of` says.
pub fn index_of_hash(h: u64, n: usize) -> (i: usize)
    requires
        n > 0,
    ensures
        i as int == spec_index_of(h, n as int),
        i < n,
{
    (h % (n as u64)) as usize
}

/// Hash a byte-string key with `std`'s `DefaultHasher`. The result is a
/// pure function of the bytes, so equal keys always hash alike.
pub fn hash_bytes(bytes: &[u8]) -> (h: u64)
    ensures
        h == spec_hash_bytes(bytes@),
{
    let mut state = DefaultHasher::new();
    state.write(bytes);
    state.finish()
}

/// Route a byte-string key: hash it, then reduce modulo `n`.
pub fn index_of_bytes(bytes: &[u8], n: usize) -> (i: usize)
    requires
        n > 0,
    ensures
        i as int == spec_index_of(spec_hash_bytes(bytes@), n as int),
        i < n,
{
    index_of_hash(hash_bytes(bytes), n)
}

/// Relies on core::hash::Hash::hash: feeds the key's data to the hasher.
/// Nothing is assumed of what was written: `Hash` alone does not mandate
/// determinism, which is instead a requirement on the chosen key type.
#[verifier::external_body]
fn write_key<K: Hash + ?Sized>(k: &K, state: &mut DefaultHasher) {
    k.hash(state);
}

/// Hash an arbitrary key with `std`'s `DefaultHasher`. The digest depends
/// on the key type's `Hash` implementation, of which nothing is assumed.
pub fn hash_key<K: Hash + ?Sized>(k: &K) -> u64 {
    let mut state = DefaultHasher::new();
    write_key(k, &mut state);
    state.finish()
}

/// Route an arbitrary key: hash it, then reduce modulo `n`. The result is
/// always in range, and is stable whenever the key type's `Hash`
/// implementation is deterministic, as is required of shard keys.
pub fn index<K: Hash + ?Sized>(k: &K, n: usize) -> (i: usize)
    requires
        n > 0,
    ensures
        i < n,
{
    index_of_hash(hash_key(k), n)
}

/// One fixed-length set of independently lockable shards. The element
/// count is set at construction and never changes: it is the sole modulus
/// of the index computation, so a key's shard never moves.
pub struct Shard<L> {
    pub(crate) shards: Vec<L>,
}

impl<L> Shard<L> {
    /// The shards' locks, in construction order.
    pub closed spec fn locks(&self) -> Seq<L> {
        self.shards@
    }

    /// The fixed shard count N.
    pub fn count(&self) -> (n: usize)
        ensures
            n == self.locks().len(),
    {
        self.shards.len()
    }

    pub(crate) fn from_locks(locks: Vec<L>) -> (s: Shard<L>)
        ensures
            s.locks() == locks@,
    {
        Shard { shards: locks }
    }

    pub(crate) fn shards_slice<'a>(&'a self) -> (r: &'a [L])
        ensures
            r@ == self.locks(),
    {
        self.shards.as_slice()
    }
}

/// Key stability: two equal keys are routed to the same shard index, on
/// every call and for the structure's whole lifetime, because the index is
/// a function of the key's bytes and the fixed shard count alone.
pub proof fn lemma_key_stability(b1: Seq<u8>, b2: Seq<u8>, n: int)
    requires
        b1 == b2,
        n > 0,
    ensures
        spec_index_of(spec_hash_bytes(b1), n) == spec_index_of(spec_hash_bytes(b2), n),
{
}

/// Partition coverage: every hash is routed to an index in `[0, n)`.
pub proof fn lemma_partition_coverage(h: u64, n: int)
    requires
        n > 0,
    ensures
        0 <= spec_index_of(h, n) < n,
{
}

/// A single shard degenerates to one global lock: every hash routes to
/// index 0.
pub proof fn lemma_single_shard(h: u64)
    ensures
        spec_index_of(h, 1) == 0,
{
}

} // verus!
