//! The database with pessimistic transactions: writers lock each key as
//! they write it, and wait, time out or are told of a deadlock when the
//! key is taken.

use vstd::prelude::*;
use vstd::string::StringSliceAdditionalSpecFns;
use crate::error::{no_snapshot_message, path_message, Error};
use crate::iterator::{ascending, entries_of, positioned_by, DBIterator, DBRawIterator, IteratorMode, KVBytes};
use crate::open::{connect, plan, refusal, OpenRequest, Opened};
pub use crate::options::{TransactionDBOptions, TransactionOptions};
use crate::options::{pinned_read, plain_read, Inner, Options, ReadOptions, WriteOptions};
use crate::request::{Isolation, Operation, Request, StoreKind, Target};
pub use crate::transaction::Transaction;
use crate::utils::{encodable, to_cpath};

verus! {

/// An open database with pessimistic transactions.
#[derive(Debug)]
pub struct TransactionDB {
    inner: usize,
}

/// A consistent view of a [`TransactionDB`] as of the moment the snapshot
/// was taken.
#[derive(Debug)]
pub struct Snapshot<'a> {
    db: &'a TransactionDB,
    inner: usize,
}

impl TransactionDB {
    /// The connection to the engine.
    pub closed spec fn handle(&self) -> usize {
        self.inner
    }

    /// The connection to the engine, for the driver.
    pub fn inner(&self) -> (h: usize)
        ensures
            h == self.handle(),
    {
        self.inner
    }

    /// What to ask of the engine to open the store at `path` with default
    /// options, creating it when it is missing.
    pub fn open_default(path: &str) -> (r: Result<OpenRequest, Error>)
        ensures
            encodable(path) ==> {
                &&& r is Ok
                &&& r->Ok_0.directory@ == path@
                &&& r->Ok_0.path@ == path.spec_bytes().push(0u8)
                &&& r->Ok_0.families@.len() == 0
                &&& r->Ok_0.options == (Options {
                    create_if_missing: true,
                    statistics: false,
                    stats_dump_period_sec: None,
                })
                &&& r->Ok_0.create_directory
                &&& r->Ok_0.locks == Some(
                    TransactionDBOptions {
                        max_num_locks: None,
                        num_stripes: None,
                        transaction_lock_timeout: None,
                        default_lock_timeout: None,
                    },
                )
            },
            !encodable(path) ==> r is Err && r->Err_0@ == path_message(),
    {
        let mut opts = Options::default();
        let transaction_db_opts = TransactionDBOptions::default();
        opts.create_if_missing(true);
        TransactionDB::open(&opts, &transaction_db_opts, path)
    }

    /// What to ask of the engine to open the store at `path`.
    pub fn open(opts: &Options, txn_db_opts: &TransactionDBOptions, path: &str) -> (r: Result<
        OpenRequest,
        Error,
    >)
        ensures
            encodable(path) ==> {
                &&& r is Ok
                &&& r->Ok_0.directory@ == path@
                &&& r->Ok_0.path@ == path.spec_bytes().push(0u8)
                &&& r->Ok_0.families@.len() == 0
                &&& r->Ok_0.options == *opts
                &&& r->Ok_0.create_directory
                &&& r->Ok_0.locks == Some(*txn_db_opts)
            },
            !encodable(path) ==> r is Err && r->Err_0@ == path_message(),
    {
        let none: [&str; 0] = [];
        let r = plan(opts, path, none.as_slice(), true, Some(*txn_db_opts));
        proof {
            assert(crate::open::texts_of(none@) =~= Seq::<Seq<char>>::empty());
            if r is Ok {
                assert(crate::open::names_of(r->Ok_0.families@).len() == 0);
            }
        }
        r
    }

    /// The database that the engine's answer to `request` opens, or the
    /// error that the answer calls for.
    pub fn opened(request: OpenRequest, outcome: Opened) -> (r: Result<TransactionDB, Error>)
        ensures
            match refusal(request.families@, outcome) {
                Some(message) => r is Err && r->Err_0@ == message,
                None => r is Ok && r->Ok_0.handle() == outcome->db && r->Ok_0.handle() != 0,
            },
    {
        match connect(request, outcome) {
            Ok(connection) => Ok(TransactionDB { inner: connection.db }),
            Err(e) => Err(e),
        }
    }

    /// The read of `key` as the database stands now.
    pub fn get(&self, key: &[u8]) -> (r: Request)
        ensures
            r@ == (Operation::Get {
                target: Target::TransactionDatabase(self.handle()),
                family: None,
                key: key@,
                options: plain_read(),
            }),
    {
        let opts = ReadOptions::default();
        self.get_opt(key, &opts)
    }

    /// The put of `value` under `key`, outside any transaction, with
    /// default options.
    pub fn put(&self, key: &[u8], value: &[u8]) -> (r: Request)
        ensures
            r@ == (Operation::Put {
                target: Target::TransactionDatabase(self.handle()),
                family: None,
                key: key@,
                value: value@,
                options: Some(WriteOptions { sync: false, disable_wal: false }),
            }),
    {
        let w_opts = WriteOptions::default();
        self.put_opt(key, value, &w_opts)
    }

    /// The put of `value` under `key`, outside any transaction, with the
    /// given options.
    pub fn put_opt(&self, key: &[u8], value: &[u8], w_opts: &WriteOptions) -> (r: Request)
        ensures
            r@ == (Operation::Put {
                target: Target::TransactionDatabase(self.handle()),
                family: None,
                key: key@,
                value: value@,
                options: Some(*w_opts),
            }),
    {
        Request::put(Target::TransactionDatabase(self.inner), None, key, value, Some(*w_opts))
    }

    /// The read of `key` with the given options.
    pub fn get_opt(&self, key: &[u8], read_opts: &ReadOptions) -> (r: Request)
        ensures
            r@ == (Operation::Get {
                target: Target::TransactionDatabase(self.handle()),
                family: None,
                key: key@,
                options: read_opts@,
            }),
    {
        Request::get(Target::TransactionDatabase(self.inner), None, key, read_opts)
    }

    /// What to ask of the engine to begin a transaction.
    pub fn transaction_begin(&self, w_opts: &WriteOptions, txn_opts: &TransactionOptions) -> (r: Request)
        ensures
            r@ == (Operation::Begin {
                db: self.handle(),
                write: *w_opts,
                isolation: Isolation::Pessimistic(*txn_opts),
            }),
    {
        Request::Begin { db: self.inner, write: *w_opts, isolation: Isolation::Pessimistic(*txn_opts) }
    }

    /// A snapshot of the database, around the marker that the engine
    /// created for it. A null marker pins nothing and is refused.
    pub fn snapshot(&self, marker: usize) -> (r: Result<Snapshot<'_>, Error>)
        ensures
            marker != 0 ==> {
                &&& r is Ok
                &&& r->Ok_0.marker() == marker
                &&& r->Ok_0.database() == self.handle()
            },
            marker == 0 ==> r is Err && r->Err_0@ == no_snapshot_message(),
    {
        Snapshot::new(self, marker)
    }

    /// What to ask of the engine to destroy the unopened store at `path`.
    pub fn destroy(opts: &Options, path: &str) -> (r: Result<Request, Error>)
        ensures
            encodable(path) ==> r is Ok && r->Ok_0@ == (Operation::Destroy {
                path: path.spec_bytes().push(0u8),
                options: *opts,
            }),
            !encodable(path) ==> r is Err && r->Err_0@ == path_message(),
    {
        match to_cpath(path) {
            Ok(encoded) => Ok(Request::Destroy { path: encoded, options: *opts }),
            Err(e) => Err(e),
        }
    }

    /// What to ask of the engine to repair the unopened store at `path`.
    pub fn repair(opts: Options, path: &str) -> (r: Result<Request, Error>)
        ensures
            encodable(path) ==> r is Ok && r->Ok_0@ == (Operation::Repair {
                path: path.spec_bytes().push(0u8),
                options: opts,
            }),
            !encodable(path) ==> r is Err && r->Err_0@ == path_message(),
    {
        match to_cpath(path) {
            Ok(encoded) => Ok(Request::Repair { path: encoded, options: opts }),
            Err(e) => Err(e),
        }
    }

    /// Gives up the database and says what to release.
    pub fn close(self) -> (r: Request)
        ensures
            r@ == (Operation::Close { db: self.handle(), kind: StoreKind::Pessimistic }),
    {
        Request::Close { db: self.inner, kind: StoreKind::Pessimistic }
    }
}

impl<'a> Snapshot<'a> {
    /// The connection of the database that the snapshot was taken of.
    pub closed spec fn database(&self) -> usize {
        self.db.handle()
    }

    /// A snapshot of `db`, around the marker that the engine created. A
    /// null marker pins nothing and is refused.
    pub fn new(db: &'a TransactionDB, marker: usize) -> (r: Result<Snapshot<'a>, Error>)
        ensures
            marker != 0 ==> {
                &&& r is Ok
                &&& r->Ok_0.marker() == marker
                &&& r->Ok_0.database() == db.handle()
            },
            marker == 0 ==> r is Err && r->Err_0@ == no_snapshot_message(),
    {
        if marker == 0 {
            Err(Error::no_snapshot())
        } else {
            Ok(Snapshot { db, inner: marker })
        }
    }

    /// What to ask of the engine to begin the transaction through which
    /// the snapshot is iterated: one with default options, which writes
    /// nothing.
    pub fn reader(&self) -> (r: Request)
        ensures
            r@ == (Operation::Begin {
                db: self.database(),
                write: WriteOptions { sync: false, disable_wal: false },
                isolation: Isolation::Pessimistic(
                    TransactionOptions {
                        set_snapshot: None,
                        deadlock_detect: None,
                        lock_timeout: None,
                        expiration: None,
                        deadlock_detect_depth: None,
                        max_write_batch_size: None,
                    },
                ),
            }),
    {
        let writeopts = WriteOptions::default();
        let txn_opts = TransactionOptions::default();
        self.db.transaction_begin(&writeopts, &txn_opts)
    }

    /// The read of all entries as of the snapshot, through `reader`, for a
    /// cursor.
    pub fn scan(&self, reader: &Transaction) -> (r: Result<Request, Error>)
        ensures
            reader.asks(
                r,
                Operation::Scan {
                    target: Target::Transaction(reader.handle()),
                    family: None,
                    options: pinned_read(self.marker()),
                },
            ),
    {
        let mut readopts = ReadOptions::default();
        readopts.set_snapshot(self);
        reader.scan(&readopts)
    }

    /// A traversal over the entries that a scan of the snapshot returned.
    pub fn iterator(&self, entries: Vec<KVBytes>, mode: IteratorMode) -> (r: Option<DBIterator>)
        ensures
            r is Some <==> ascending(entries_of(entries@)),
            r is Some ==> {
                &&& r->Some_0.entries() == entries_of(entries@)
                &&& r->Some_0.positioned()
                &&& positioned_by(entries_of(entries@), mode, r->Some_0.cursor(), r->Some_0.direction())
            },
    {
        DBIterator::over(entries, mode)
    }

    /// A cursor over the entries that a scan of the snapshot returned.
    pub fn raw_iterator(&self, entries: Vec<KVBytes>) -> (r: Option<DBRawIterator>)
        ensures
            r is Some <==> ascending(entries_of(entries@)),
            r is Some ==> r->Some_0.entries() == entries_of(entries@) && r->Some_0.cursor() is None,
    {
        DBRawIterator::new(entries)
    }

    /// The read of `key` as of the snapshot.
    pub fn get(&self, key: &[u8]) -> (r: Request)
        ensures
            r@ == (Operation::Get {
                target: Target::TransactionDatabase(self.database()),
                family: None,
                key: key@,
                options: pinned_read(self.marker()),
            }),
    {
        let mut readopts = ReadOptions::default();
        readopts.set_snapshot(self);
        self.db.get_opt(key, &readopts)
    }

    /// Gives up the snapshot and says what to release. The snapshot is
    /// consumed: it cannot be released twice, nor read afterwards.
    pub fn release(self) -> (r: Request)
        ensures
            r@ == (Operation::ReleaseSnapshot {
                source: Target::TransactionDatabase(self.database()),
                snapshot: self.marker(),
            }),
    {
        Request::ReleaseSnapshot { source: Target::TransactionDatabase(self.db.inner), snapshot: self.inner }
    }
}

impl<'a> Inner for Snapshot<'a> {
    closed spec fn marker(&self) -> usize {
        self.inner
    }

    fn get_inner(&self) -> (m: usize) {
        self.inner
    }
}

} // verus!
