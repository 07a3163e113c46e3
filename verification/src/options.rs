//! The options that travel with an operation. Each is a plain record of
//! what the caller asked for; where a field is `None` the engine's own
//! default stands.

use vstd::prelude::*;
use vstd::slice::slice_to_vec;

verus! {

/// How the engine compresses what it stores.
#[derive(Clone, Copy, Debug, PartialEq, Eq, Structural)]
pub enum DBCompressionType {
    Uncompressed,
    Snappy,
    Zlib,
    Bz2,
    Lz4,
    Lz4hc,
}

/// How the engine compacts what it stores.
#[derive(Clone, Copy, Debug, PartialEq, Eq, Structural)]
pub enum DBCompactionStyle {
    Level,
    Universal,
    Fifo,
}

/// How much damage to its log the engine accepts when it opens a store.
#[derive(Clone, Copy, Debug, PartialEq, Eq, Structural)]
pub enum DBRecoveryMode {
    TolerateCorruptedTailRecords,
    AbsoluteConsistency,
    PointInTime,
    SkipAnyCorruptedRecord,
}

/// Options for opening a store.
#[derive(Clone, Copy, Debug)]
pub struct Options {
    pub create_if_missing: bool,
    pub statistics: bool,
    pub stats_dump_period_sec: Option<u32>,
}

impl Options {
    /// Whether to create the store when none exists at the path.
    pub fn create_if_missing(&mut self, create: bool)
        ensures
            *final(self) == (Options { create_if_missing: create, ..*old(self) }),
    {
        self.create_if_missing = create;
    }

    /// Has the engine collect statistics.
    pub fn enable_statistics(&mut self)
        ensures
            *final(self) == (Options { statistics: true, ..*old(self) }),
    {
        self.statistics = true;
    }

    /// Sets the interval, in seconds, at which statistics are dumped.
    pub fn set_stats_dump_period_sec(&mut self, period: u32)
        ensures
            *final(self) == (Options { stats_dump_period_sec: Some(period), ..*old(self) }),
    {
        self.stats_dump_period_sec = Some(period);
    }
}

impl Default for Options {
    fn default() -> (o: Options)
        ensures
            o == (Options { create_if_missing: false, statistics: false, stats_dump_period_sec: None }),
    {
        Options { create_if_missing: false, statistics: false, stats_dump_period_sec: None }
    }
}

/// Options for a write: whether it is flushed before the call returns, and
/// whether it bypasses the write-ahead log.
#[derive(Clone, Copy, Debug)]
pub struct WriteOptions {
    pub sync: bool,
    pub disable_wal: bool,
}

impl WriteOptions {
    /// Buffered writes through the write-ahead log.
    pub fn new() -> (o: WriteOptions)
        ensures
            o == (WriteOptions { sync: false, disable_wal: false }),
    {
        WriteOptions { sync: false, disable_wal: false }
    }

    /// Whether a write is flushed to stable storage before it returns.
    pub fn set_sync(&mut self, sync: bool)
        ensures
            *final(self) == (WriteOptions { sync, ..*old(self) }),
    {
        self.sync = sync;
    }

    /// Whether a write bypasses the write-ahead log.
    pub fn disable_wal(&mut self, disable: bool)
        ensures
            *final(self) == (WriteOptions { disable_wal: disable, ..*old(self) }),
    {
        self.disable_wal = disable;
    }
}

impl Default for WriteOptions {
    fn default() -> (o: WriteOptions)
        ensures
            o == (WriteOptions { sync: false, disable_wal: false }),
    {
        WriteOptions::new()
    }
}

/// Something that exposes a point-in-time marker of the engine, to which
/// reads can be pinned.
pub trait Inner {
    /// The marker in contracts.
    spec fn marker(&self) -> usize;

    /// The marker.
    fn get_inner(&self) -> (m: usize)
        ensures
            m == self.marker(),
    ;
}

/// What read options amount to.
pub struct ReadSettings {
    pub snapshot: Option<usize>,
    pub iterate_upper_bound: Option<Seq<u8>>,
    pub fill_cache: Option<bool>,
}

/// Options for a read: the point in time it is pinned to, the key at which
/// an iteration stops, and whether what is read enters the block cache.
#[derive(Debug)]
pub struct ReadOptions {
    snapshot: Option<usize>,
    iterate_upper_bound: Option<Vec<u8>>,
    fill_cache: Option<bool>,
}

impl View for ReadOptions {
    type V = ReadSettings;

    closed spec fn view(&self) -> ReadSettings {
        ReadSettings {
            snapshot: self.snapshot,
            iterate_upper_bound: match self.iterate_upper_bound {
                Some(key) => Some(key@),
                None => None,
            },
            fill_cache: self.fill_cache,
        }
    }
}

/// Read options as they are before any setter ran.
pub open spec fn plain_read() -> ReadSettings {
    ReadSettings { snapshot: None, iterate_upper_bound: None, fill_cache: None }
}

/// Read options pinned to `marker` and otherwise untouched.
pub open spec fn pinned_read(marker: usize) -> ReadSettings {
    ReadSettings { snapshot: Some(marker), iterate_upper_bound: None, fill_cache: None }
}

impl ReadOptions {
    /// Whether what is read enters the block cache.
    pub fn fill_cache(&mut self, fill: bool)
        ensures
            final(self)@ == (ReadSettings { fill_cache: Some(fill), ..old(self)@ }),
    {
        self.fill_cache = Some(fill);
    }

    /// Pins reads to the point in time that `snapshot` marks.
    pub fn set_snapshot<T: Inner>(&mut self, snapshot: &T)
        ensures
            final(self)@ == (ReadSettings { snapshot: Some(snapshot.marker()), ..old(self)@ }),
    {
        self.snapshot = Some(snapshot.get_inner());
    }

    /// Ends iterations before `key`.
    pub fn set_iterate_upper_bound(&mut self, key: &[u8])
        ensures
            final(self)@ == (ReadSettings { iterate_upper_bound: Some(key@), ..old(self)@ }),
    {
        self.iterate_upper_bound = Some(slice_to_vec(key));
    }

    /// The marker these options are pinned to, if any.
    pub fn snapshot(&self) -> (m: Option<usize>)
        ensures
            m == self@.snapshot,
    {
        self.snapshot
    }

    /// The key before which iterations end, if any.
    pub fn iterate_upper_bound(&self) -> (key: Option<&[u8]>)
        ensures
            key is Some <==> self@.iterate_upper_bound is Some,
            key is Some ==> key->Some_0@ == self@.iterate_upper_bound->Some_0,
    {
        match &self.iterate_upper_bound {
            Some(key) => Some(key.as_slice()),
            None => None,
        }
    }

    /// Whether what is read enters the block cache, if the caller said so.
    pub fn cache_fill(&self) -> (fill: Option<bool>)
        ensures
            fill == self@.fill_cache,
    {
        self.fill_cache
    }

    /// A copy of these options.
    pub fn duplicate(&self) -> (o: ReadOptions)
        ensures
            o@ == self@,
    {
        let bound = match &self.iterate_upper_bound {
            Some(key) => Some(slice_to_vec(key.as_slice())),
            None => None,
        };
        ReadOptions { snapshot: self.snapshot, iterate_upper_bound: bound, fill_cache: self.fill_cache }
    }
}

impl Default for ReadOptions {
    fn default() -> (o: ReadOptions)
        ensures
            o@ == plain_read(),
    {
        ReadOptions { snapshot: None, iterate_upper_bound: None, fill_cache: None }
    }
}

/// Options of one pessimistic transaction.
#[derive(Clone, Copy, Debug)]
pub struct TransactionOptions {
    pub set_snapshot: Option<bool>,
    pub deadlock_detect: Option<bool>,
    pub lock_timeout: Option<i64>,
    pub expiration: Option<i64>,
    pub deadlock_detect_depth: Option<i64>,
    pub max_write_batch_size: Option<usize>,
}

impl TransactionOptions {
    /// Whether the transaction pins a snapshot when it begins, so that every
    /// key it writes is checked against that point in time.
    pub fn set_snapshot(&mut self, v: bool)
        ensures
            *final(self) == (TransactionOptions { set_snapshot: Some(v), ..*old(self) }),
    {
        self.set_snapshot = Some(v);
    }

    /// Whether the engine looks for deadlocks while the transaction waits
    /// for a lock.
    pub fn set_deadlock_detect(&mut self, v: bool)
        ensures
            *final(self) == (TransactionOptions { deadlock_detect: Some(v), ..*old(self) }),
    {
        self.deadlock_detect = Some(v);
    }

    /// How long, in milliseconds, the transaction waits for a lock.
    pub fn set_lock_timeout(&mut self, lock_timeout: i64)
        ensures
            *final(self) == (TransactionOptions { lock_timeout: Some(lock_timeout), ..*old(self) }),
    {
        self.lock_timeout = Some(lock_timeout);
    }

    /// After how many milliseconds the transaction can no longer commit.
    /// Without an expiration, a transaction that is never finished keeps
    /// its locks: finishing it is the caller's obligation.
    pub fn set_expiration(&mut self, expiration: i64)
        ensures
            *final(self) == (TransactionOptions { expiration: Some(expiration), ..*old(self) }),
    {
        self.expiration = Some(expiration);
    }

    /// How many waiting transactions deadlock detection follows.
    pub fn set_deadlock_detect_depth(&mut self, depth: i64)
        ensures
            *final(self) == (TransactionOptions { deadlock_detect_depth: Some(depth), ..*old(self) }),
    {
        self.deadlock_detect_depth = Some(depth);
    }

    /// The largest write batch, in bytes, that the transaction may build.
    pub fn set_max_write_batch_size(&mut self, size: usize)
        ensures
            *final(self) == (TransactionOptions { max_write_batch_size: Some(size), ..*old(self) }),
    {
        self.max_write_batch_size = Some(size);
    }
}

impl Default for TransactionOptions {
    fn default() -> (o: TransactionOptions)
        ensures
            o == (TransactionOptions {
                set_snapshot: None,
                deadlock_detect: None,
                lock_timeout: None,
                expiration: None,
                deadlock_detect_depth: None,
                max_write_batch_size: None,
            }),
    {
        TransactionOptions {
            set_snapshot: None,
            deadlock_detect: None,
            lock_timeout: None,
            expiration: None,
            deadlock_detect_depth: None,
            max_write_batch_size: None,
        }
    }
}

/// Options of a database with pessimistic transactions.
#[derive(Clone, Copy, Debug)]
pub struct TransactionDBOptions {
    pub max_num_locks: Option<i64>,
    pub num_stripes: Option<usize>,
    pub transaction_lock_timeout: Option<i64>,
    pub default_lock_timeout: Option<i64>,
}

impl TransactionDBOptions {
    /// The most keys that may be locked at once.
    pub fn set_max_num_locks(&mut self, max_num_locks: i64)
        ensures
            *final(self) == (TransactionDBOptions { max_num_locks: Some(max_num_locks), ..*old(self) }),
    {
        self.max_num_locks = Some(max_num_locks);
    }

    /// Into how many stripes the lock table is divided.
    pub fn set_num_stripes(&mut self, num_stripes: usize)
        ensures
            *final(self) == (TransactionDBOptions { num_stripes: Some(num_stripes), ..*old(self) }),
    {
        self.num_stripes = Some(num_stripes);
    }

    /// How long, in milliseconds, a transaction waits for a lock unless its
    /// own options say otherwise.
    pub fn set_transaction_lock_timeout(&mut self, txn_lock_timeout: i64)
        ensures
            *final(self) == (TransactionDBOptions {
                transaction_lock_timeout: Some(txn_lock_timeout),
                ..*old(self)
            }),
    {
        self.transaction_lock_timeout = Some(txn_lock_timeout);
    }

    /// How long, in milliseconds, a write outside any transaction waits for
    /// a lock.
    pub fn set_default_lock_timeout(&mut self, default_lock_timeout: i64)
        ensures
            *final(self) == (TransactionDBOptions {
                default_lock_timeout: Some(default_lock_timeout),
                ..*old(self)
            }),
    {
        self.default_lock_timeout = Some(default_lock_timeout);
    }
}

impl Default for TransactionDBOptions {
    fn default() -> (o: TransactionDBOptions)
        ensures
            o == (TransactionDBOptions {
                max_num_locks: None,
                num_stripes: None,
                transaction_lock_timeout: None,
                default_lock_timeout: None,
            }),
    {
        TransactionDBOptions {
            max_num_locks: None,
            num_stripes: None,
            transaction_lock_timeout: None,
            default_lock_timeout: None,
        }
    }
}

/// Options of one optimistic transaction.
#[derive(Clone, Copy, Debug)]
pub struct OptimisticTransactionOptions {
    pub set_snapshot: Option<bool>,
}

impl OptimisticTransactionOptions {
    /// Whether the transaction pins a snapshot when it begins, so that the
    /// conflict check at commit goes back to that point in time.
    pub fn set_snapshot(&mut self, snapshot: bool)
        ensures
            *final(self) == (OptimisticTransactionOptions { set_snapshot: Some(snapshot) }),
    {
        self.set_snapshot = Some(snapshot);
    }
}

impl Default for OptimisticTransactionOptions {
    fn default() -> (o: OptimisticTransactionOptions)
        ensures
            o == (OptimisticTransactionOptions { set_snapshot: None }),
    {
        OptimisticTransactionOptions { set_snapshot: None }
    }
}

} // verus!
