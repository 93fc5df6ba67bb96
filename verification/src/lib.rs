//! A sharded read/write-lock facility: a fixed number of independently
//! lockable partitions ("shards"), with every operation routed to exactly
//! one shard chosen deterministically from the operation's key.

use vstd::prelude::*;

pub mod lock;
pub mod shard;

verus! {

/// Capability required of stored values when they must report the key that
/// locates them. This is a read-only relation: the value does not own or
/// reference its shard.
pub trait ExtractShardKey<K> {
    fn key<'a>(&'a self) -> &'a K;
}

/// Capability required of any sub-collection type plugged into a shard:
/// keyed insert, keyed lookup, keyed remove. Semantics and error behavior
/// are defined by the implementing type, not by this crate.
pub trait Collection<K, V>: Sized where V: ExtractShardKey<K> {
    fn insert(&mut self, value: V);

    fn lookup<'a>(&'a self, key: &K) -> Option<&'a V>;

    fn remove(&mut self, key: &K) -> Option<V>;
}

} // verus!
