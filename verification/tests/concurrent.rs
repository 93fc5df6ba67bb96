use sharded::lock::{Lock, ShardLock};
use sharded::shard::{index, Shard};
use sharded::{Collection, ExtractShardKey};
use std::sync::atomic::{AtomicUsize, Ordering};

#[derive(Clone, Debug, PartialEq)]
struct Entry {
    key: u64,
    val: u64,
}

impl ExtractShardKey<u64> for Entry {
    fn key(&self) -> &u64 {
        &self.key
    }
}

#[derive(Clone, Debug, PartialEq)]
struct Slots {
    items: Vec<Entry>,
}

impl Slots {
    fn new() -> Slots {
        Slots { items: Vec::new() }
    }
}

impl Collection<u64, Entry> for Slots {
    fn insert(&mut self, value: Entry) {
        self.items.retain(|e| e.key != value.key);
        self.items.push(value);
    }

    fn lookup(&self, key: &u64) -> Option<&Entry> {
        self.items.iter().find(|e| &e.key == key)
    }

    fn remove(&mut self, key: &u64) -> Option<Entry> {
        let pos = self.items.iter().position(|e| &e.key == key)?;
        Some(self.items.remove(pos))
    }
}

// Mutual exclusion across threads: increments under the write guard never
// race, so none is lost, on all three backends.
#[test]
fn mutual_exclusion_across_threads() {
    let std_lock: std::sync::RwLock<u64> = Lock::new(0);
    let pl_lock: parking_lot::RwLock<u64> = Lock::new(0);
    let cb_lock: crossbeam::sync::ShardedLock<u64> = Lock::new(0);
    crossbeam::scope(|s| {
        for _ in 0..4 {
            s.spawn(|_| {
                for _ in 0..500 {
                    *Lock::write(&std_lock).get_mut() += 1;
                    *Lock::write(&pl_lock).get_mut() += 1;
                    *Lock::write(&cb_lock).get_mut() += 1;
                }
            });
        }
    })
    .expect("no worker may panic");
    assert_eq!(*Lock::read(&std_lock).get(), 2000);
    assert_eq!(*Lock::read(&pl_lock).get(), 2000);
    assert_eq!(*Lock::read(&cb_lock).get(), 2000);
}

// Reader concurrency across threads: several read guards on the same
// shard are live at once. Every reader waits, while holding its guard,
// until all readers hold theirs; if readers excluded one another this
// would never finish.
#[test]
fn readers_share_a_shard() {
    let s: Shard<std::sync::RwLock<Slots>> = Shard::new(vec![Slots::new()]);
    let key: u64 = 9;
    {
        let mut g = ShardLock::<u64, Entry, Slots, _>::write(&s, &key);
        g.get_mut().insert(Entry { key, val: 41 });
    }
    let arrived = AtomicUsize::new(0);
    let peak = AtomicUsize::new(0);
    crossbeam::scope(|sc| {
        for _ in 0..3 {
            sc.spawn(|_| {
                let g = ShardLock::<u64, Entry, Slots, _>::read(&s, &key);
                let now = arrived.fetch_add(1, Ordering::SeqCst) + 1;
                peak.fetch_max(now, Ordering::SeqCst);
                while arrived.load(Ordering::SeqCst) < 3 {
                    std::hint::spin_loop();
                }
                assert_eq!(g.get().lookup(&key).unwrap().val, 41);
            });
        }
    })
    .expect("no reader may panic");
    assert_eq!(peak.load(Ordering::SeqCst), 3);
}

// Cross-shard independence across threads: while one thread holds a write
// guard on a key's shard, another thread acquires a write guard on a
// different shard without blocking.
#[test]
fn write_on_one_shard_frees_the_others() {
    let n: usize = 4;
    let s: Shard<parking_lot::RwLock<Slots>> =
        Shard::new((0..n).map(|_| Slots::new()).collect());
    let k1: u64 = 0;
    let i1 = index(&k1, n);
    let k2 = (1..100).find(|k| index(k, n) != i1).expect("another shard must be hit");
    let other_done = AtomicUsize::new(0);
    let mut g1 = ShardLock::<u64, Entry, Slots, _>::write(&s, &k1);
    g1.get_mut().insert(Entry { key: k1, val: 1 });
    crossbeam::scope(|sc| {
        sc.spawn(|_| {
            // must not block behind g1: it is a different shard
            let mut g2 = ShardLock::<u64, Entry, Slots, _>::write(&s, &k2);
            g2.get_mut().insert(Entry { key: k2, val: 2 });
            other_done.store(1, Ordering::SeqCst);
        });
    })
    .expect("the writer may not panic");
    assert_eq!(other_done.load(Ordering::SeqCst), 1);
    drop(g1);
    let g = ShardLock::<u64, Entry, Slots, _>::read(&s, &k2);
    assert_eq!(g.get().lookup(&k2).unwrap().val, 2);
}

// Guard release on unwinding: a thread that panics while holding a write
// guard still releases the lock (parking_lot backend, which does not
// poison), so a later write succeeds.
#[test]
fn guard_release_on_unwind() {
    let s: Shard<parking_lot::RwLock<Slots>> = Shard::new(vec![Slots::new()]);
    let key: u64 = 3;
    let outcome = crossbeam::scope(|sc| {
        sc.spawn(|_| {
            let mut g = ShardLock::<u64, Entry, Slots, _>::write(&s, &key);
            g.get_mut().insert(Entry { key, val: 1 });
            panic!("unwind while holding the guard");
        });
    });
    assert!(outcome.is_err());
    let mut g = ShardLock::<u64, Entry, Slots, _>::write(&s, &key);
    g.get_mut().insert(Entry { key, val: 2 });
    drop(g);
    let g = ShardLock::<u64, Entry, Slots, _>::read(&s, &key);
    assert_eq!(g.get().lookup(&key).unwrap().val, 2);
}
