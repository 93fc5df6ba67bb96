//! The lock capability interface, three reader-writer backends that
//! satisfy it, and the routing of keyed operations to one shard's lock.

use vstd::prelude::*;

use crate::shard::{index, Shard};
use crate::{Collection, ExtractShardKey};
use core::hash::Hash;
use vstd::pervasive::unreached;

verus! {

// ---------------------------------------------------------------------------
// Backend lock and guard types, declared so they can stand in signatures.
// ---------------------------------------------------------------------------

#[verifier::external_type_specification]
#[verifier::external_body]
#[verifier::reject_recursive_types(T)]
pub struct ExStdRwLock<T: ?Sized>(std::sync::RwLock<T>);

#[verifier::external_type_specification]
#[verifier::external_body]
#[verifier::reject_recursive_types(T)]
pub struct ExStdRwLockReadGuard<'a, T: ?Sized>(std::sync::RwLockReadGuard<'a, T>);

#[verifier::external_type_specification]
#[verifier::external_body]
#[verifier::reject_recursive_types(T)]
pub struct ExStdRwLockWriteGuard<'a, T: ?Sized + 'a>(std::sync::RwLockWriteGuard<'a, T>);

#[verifier::external_type_specification]
#[verifier::external_body]
pub struct ExRawRwLock(parking_lot::RawRwLock);

#[verifier::external_type_specification]
#[verifier::external_body]
#[verifier::reject_recursive_types(R)]
#[verifier::reject_recursive_types(T)]
pub struct ExLockApiRwLock<R, T: ?Sized>(lock_api::RwLock<R, T>);

/// Holds a parking_lot read guard. Its own guard type (lock_api's, with a
/// trait-bounded raw-lock parameter) cannot be declared to the verifier,
/// so this crate's wrapper carries it opaquely; dropping this struct drops
/// the guard, which releases the lock.
#[verifier::external_body]
#[verifier::reject_recursive_types(T)]
pub struct PlReadGuard<'a, T> {
    inner: parking_lot::RwLockReadGuard<'a, T>,
}

/// Holds a parking_lot write guard, opaquely, for the same reason as
/// `PlReadGuard`; dropping it releases the lock.
#[verifier::external_body]
#[verifier::reject_recursive_types(T)]
pub struct PlWriteGuard<'a, T> {
    inner: parking_lot::RwLockWriteGuard<'a, T>,
}

#[verifier::external_type_specification]
#[verifier::external_body]
#[verifier::reject_recursive_types(T)]
pub struct ExShardedLock<T: ?Sized>(crossbeam::sync::ShardedLock<T>);

#[verifier::external_type_specification]
#[verifier::external_body]
#[verifier::reject_recursive_types(T)]
pub struct ExShardedLockReadGuard<'a, T: ?Sized>(crossbeam::sync::ShardedLockReadGuard<'a, T>);

#[verifier::external_type_specification]
#[verifier::external_body]
#[verifier::reject_recursive_types(T)]
pub struct ExShardedLockWriteGuard<'a, T: ?Sized>(crossbeam::sync::ShardedLockWriteGuard<'a, T>);

// ---------------------------------------------------------------------------
// Uniform guard types over the three backends. Dropping a guard drops the
// wrapped backend guard, which releases the lock on every exit path.
// ---------------------------------------------------------------------------

/// A scoped shared-read guard: proof that the holder acquired its shard's
/// lock for reading. Dropping it releases the read lock.
#[verifier::reject_recursive_types(T)]
pub enum ReadGuard<'a, T> {
    Std(std::sync::RwLockReadGuard<'a, T>),
    ParkingLot(PlReadGuard<'a, T>),
    Crossbeam(crossbeam::sync::ShardedLockReadGuard<'a, T>),
}

/// A scoped exclusive-write guard: proof that the holder acquired its
/// shard's lock for writing. Dropping it releases the write lock.
#[verifier::reject_recursive_types(T)]
pub enum WriteGuard<'a, T> {
    Std(std::sync::RwLockWriteGuard<'a, T>),
    ParkingLot(PlWriteGuard<'a, T>),
    Crossbeam(crossbeam::sync::ShardedLockWriteGuard<'a, T>),
}

/// Relies on Deref for std::sync::RwLockReadGuard: a shared borrow of the
/// guarded value, valid while the guard lives.
#[verifier::external_body]
fn std_read_deref<'a, 'b, T>(g: &'b std::sync::RwLockReadGuard<'a, T>) -> &'b T {
    &**g
}

/// Relies on Deref for lock_api::RwLockReadGuard: a shared borrow of the
/// guarded value, valid while the guard lives.
#[verifier::external_body]
fn pl_read_deref<'a, 'b, T>(g: &'b PlReadGuard<'a, T>) -> &'b T {
    &*g.inner
}

/// Relies on Deref for crossbeam_utils::sync::ShardedLockReadGuard: a
/// shared borrow of the guarded value, valid while the guard lives.
#[verifier::external_body]
fn cb_read_deref<'a, 'b, T>(g: &'b crossbeam::sync::ShardedLockReadGuard<'a, T>) -> &'b T {
    &**g
}

/// Relies on DerefMut for std::sync::RwLockWriteGuard: an exclusive borrow
/// of the guarded value, valid while the guard lives.
#[verifier::external_body]
fn std_write_deref_mut<'a, 'b, T>(g: &'b mut std::sync::RwLockWriteGuard<'a, T>) -> &'b mut T {
    &mut **g
}

/// Relies on DerefMut for lock_api::RwLockWriteGuard: an exclusive borrow
/// of the guarded value, valid while the guard lives.
#[verifier::external_body]
fn pl_write_deref_mut<'a, 'b, T>(g: &'b mut PlWriteGuard<'a, T>) -> &'b mut T {
    &mut *g.inner
}

/// Relies on DerefMut for crossbeam_utils::sync::ShardedLockWriteGuard: an
/// exclusive borrow of the guarded value, valid while the guard lives.
#[verifier::external_body]
fn cb_write_deref_mut<'a, 'b, T>(
    g: &'b mut crossbeam::sync::ShardedLockWriteGuard<'a, T>,
) -> &'b mut T {
    &mut **g
}

impl<'a, T> ReadGuard<'a, T> {
    /// Read-only access to the guarded sub-collection.
    pub fn get<'b>(&'b self) -> &'b T {
        match self {
            ReadGuard::Std(g) => std_read_deref(g),
            ReadGuard::ParkingLot(g) => pl_read_deref(g),
            ReadGuard::Crossbeam(g) => cb_read_deref(g),
        }
    }
}

impl<'a, T> WriteGuard<'a, T> {
    /// Exclusive access to the guarded sub-collection.
    pub fn get_mut<'b>(&'b mut self) -> &'b mut T {
        match self {
            WriteGuard::Std(g) => std_write_deref_mut(g),
            WriteGuard::ParkingLot(g) => pl_write_deref_mut(g),
            WriteGuard::Crossbeam(g) => cb_write_deref_mut(g),
        }
    }
}

// ---------------------------------------------------------------------------
// The lock capability and its three backend bindings.
// ---------------------------------------------------------------------------

/// Generic locking capability: any blocking reader-writer primitive that
/// can guard one shard. `read` admits any number of concurrent readers;
/// `write` is exclusive; both block until the lock can be granted, and a
/// guard releases the lock when it is dropped, on every exit path.
pub trait Lock<T>: Sized {
    fn new(t: T) -> Self;

    fn read<'a>(&'a self) -> ReadGuard<'a, T>;

    fn write<'a>(&'a self) -> WriteGuard<'a, T>;
}

/// Relies on std::sync::RwLock::new: wraps the value; infallible.
#[verifier::external_body]
fn std_rw_new<T>(t: T) -> std::sync::RwLock<T> {
    std::sync::RwLock::new(t)
}

/// Relies on std::sync::RwLock::read: blocks the calling thread until no
/// writer holds this lock, then returns a shared guard; a poisoned lock is
/// treated as fatal (panic), never surfaced as data.
#[verifier::external_body]
fn std_rw_read<'a, T>(lock: &'a std::sync::RwLock<T>) -> std::sync::RwLockReadGuard<'a, T> {
    lock.read().unwrap()
}

/// Relies on std::sync::RwLock::write: blocks until no reader or writer
/// holds this lock, then returns an exclusive guard; a poisoned lock is
/// treated as fatal (panic), never surfaced as data.
#[verifier::external_body]
fn std_rw_write<'a, T>(lock: &'a std::sync::RwLock<T>) -> std::sync::RwLockWriteGuard<'a, T> {
    lock.write().unwrap()
}

impl<T> Lock<T> for std::sync::RwLock<T> {
    fn new(t: T) -> Self {
        std_rw_new(t)
    }

    fn read<'a>(&'a self) -> ReadGuard<'a, T> {
        ReadGuard::Std(std_rw_read(self))
    }

    fn write<'a>(&'a self) -> WriteGuard<'a, T> {
        WriteGuard::Std(std_rw_write(self))
    }
}

/// Relies on lock_api::RwLock::new (parking_lot's RwLock): wraps the
/// value; infallible.
#[verifier::external_body]
fn pl_rw_new<T>(t: T) -> parking_lot::RwLock<T> {
    parking_lot::RwLock::new(t)
}

/// Relies on lock_api::RwLock::read (parking_lot's RwLock): blocks until
/// no writer holds this lock, then returns a shared guard; this backend
/// has no poisoning.
#[verifier::external_body]
fn pl_rw_read<'a, T>(lock: &'a parking_lot::RwLock<T>) -> PlReadGuard<'a, T> {
    PlReadGuard { inner: lock.read() }
}

/// Relies on lock_api::RwLock::write (parking_lot's RwLock): blocks until
/// no reader or writer holds this lock, then returns an exclusive guard;
/// this backend has no poisoning.
#[verifier::external_body]
fn pl_rw_write<'a, T>(lock: &'a parking_lot::RwLock<T>) -> PlWriteGuard<'a, T> {
    PlWriteGuard { inner: lock.write() }
}

impl<T> Lock<T> for parking_lot::RwLock<T> {
    fn new(t: T) -> Self {
        pl_rw_new(t)
    }

    fn read<'a>(&'a self) -> ReadGuard<'a, T> {
        ReadGuard::ParkingLot(pl_rw_read(self))
    }

    fn write<'a>(&'a self) -> WriteGuard<'a, T> {
        WriteGuard::ParkingLot(pl_rw_write(self))
    }
}

/// Relies on crossbeam_utils::sync::ShardedLock::new: wraps the value;
/// infallible.
#[verifier::external_body]
fn cb_rw_new<T>(t: T) -> crossbeam::sync::ShardedLock<T> {
    crossbeam::sync::ShardedLock::new(t)
}

/// Relies on crossbeam_utils::sync::ShardedLock::read: blocks until no
/// writer holds this lock, then returns a shared guard; a poisoned lock is
/// treated as fatal (panic), never surfaced as data.
#[verifier::external_body]
fn cb_rw_read<'a, T>(
    lock: &'a crossbeam::sync::ShardedLock<T>,
) -> crossbeam::sync::ShardedLockReadGuard<'a, T> {
    lock.read().unwrap()
}

/// Relies on crossbeam_utils::sync::ShardedLock::write: blocks until no
/// reader or writer holds this lock, then returns an exclusive guard; a
/// poisoned lock is treated as fatal (panic), never surfaced as data.
#[verifier::external_body]
fn cb_rw_write<'a, T>(
    lock: &'a crossbeam::sync::ShardedLock<T>,
) -> crossbeam::sync::ShardedLockWriteGuard<'a, T> {
    lock.write().unwrap()
}

impl<T> Lock<T> for crossbeam::sync::ShardedLock<T> {
    fn new(t: T) -> Self {
        cb_rw_new(t)
    }

    fn read<'a>(&'a self) -> ReadGuard<'a, T> {
        ReadGuard::Crossbeam(cb_rw_read(self))
    }

    fn write<'a>(&'a self) -> WriteGuard<'a, T> {
        WriteGuard::Crossbeam(cb_rw_write(self))
    }
}

// ---------------------------------------------------------------------------
// Routing keyed operations to one shard's lock.
// ---------------------------------------------------------------------------

/// A sharded lock set: routes each keyed operation to exactly one of a
/// fixed number of independently locked sub-collections.
pub trait ShardLock<K: Hash, V, U, L> where
    V: ExtractShardKey<K>,
    U: Collection<K, V>,
    L: Lock<U>,
 {
    /// The fixed number of shards, set at construction.
    spec fn shard_count(&self) -> nat;

    /// Well-formedness: at least one shard exists, so the hash-modulo
    /// routing is defined.
    spec fn wf(&self) -> bool;

    /// The shards' locks, in construction order: one per shard, and at
    /// least one when the structure is well-formed.
    fn shards<'a>(&'a self) -> (r: &'a [L])
        ensures
            r@.len() == self.shard_count(),
            self.wf() ==> r@.len() > 0,
    ;

    /// Route the key to its shard and acquire that shard's exclusive
    /// write guard; blocks only on that one shard.
    fn write<'a>(&'a self, k: &K) -> WriteGuard<'a, U>
        requires
            self.wf(),
    ;

    /// Route the key to its shard and acquire that shard's shared read
    /// guard; blocks only on that one shard.
    fn read<'a>(&'a self, k: &K) -> ReadGuard<'a, U>
        requires
            self.wf(),
    ;
}

impl<K: Hash, V, U, L> ShardLock<K, V, U, L> for Shard<L> where
    V: ExtractShardKey<K>,
    U: Collection<K, V>,
    L: Lock<U>,
 {
    open spec fn shard_count(&self) -> nat {
        self.locks().len()
    }

    open spec fn wf(&self) -> bool {
        self.locks().len() > 0
    }

    fn shards<'a>(&'a self) -> (r: &'a [L]) {
        self.shards_slice()
    }

    fn write<'a>(&'a self, k: &K) -> WriteGuard<'a, U> {
        let shards = self.shards_slice();
        let i = index(k, shards.len());
        if i < shards.len() {
            let lock: &L = &shards[i];
            lock.write()
        } else {
            // Defensive only: the index is proven in range above, so this
            // construction-bug branch is provably unreachable.
            unreached()
        }
    }

    fn read<'a>(&'a self, k: &K) -> ReadGuard<'a, U> {
        let shards = self.shards_slice();
        let i = index(k, shards.len());
        if i < shards.len() {
            let lock: &L = &shards[i];
            lock.read()
        } else {
            // Defensive only: the index is proven in range above, so this
            // construction-bug branch is provably unreachable.
            unreached()
        }
    }
}

impl<L> Shard<L> {
    /// Build a shard set from a caller-supplied list of pre-built
    /// sub-collections, wrapping each in its own lock. The shard count is
    /// the list's length and is fixed for the structure's lifetime.
    pub fn new<U>(values: Vec<U>) -> (s: Shard<L>) where L: Lock<U>
        requires
            values@.len() > 0,
        ensures
            s.locks().len() == values@.len(),
    {
        let total: usize = values.len();
        let mut rest = values;
        let mut locks: Vec<L> = Vec::new();
        while rest.len() > 0
            invariant
                locks@.len() + rest@.len() == total,
            decreases rest@.len(),
        {
            let v = rest.remove(0);
            locks.push(L::new(v));
        }
        Shard::<L>::from_locks(locks)
    }
}

} // verus!
