//! The database with optimistic transactions: writers take no locks, and a
//! transaction learns at commit whether a key it wrote has changed
//! underneath it.

use vstd::prelude::*;
use vstd::string::StringSliceAdditionalSpecFns;
use crate::column_family::{issued, ColumnFamily, ColumnFamilyRegistry};
use crate::db::Created;
use crate::error::{
    invalid_family_prefix, no_snapshot_message, null_family_message, path_message, stale_family_message,
    Error,
};
use crate::iterator::{ascending, entries_of, positioned_by, DBIterator, DBRawIterator, IteratorMode, KVBytes};
use crate::open::{
    all_encodable, connect, families_opened, names_of, plan, refusal, registered, texts_of, OpenRequest, Opened,
};
pub use crate::options::OptimisticTransactionOptions;
use crate::options::{pinned_read, Inner, Options, ReadOptions, WriteOptions};
use crate::request::{Isolation, Operation, Request, StoreKind, Target};
use crate::transaction::Transaction;
use crate::utils::{encodable, is_encodable, to_cpath};

verus! {

/// An open database with optimistic transactions. Besides its own
/// connection it holds the connection of the plain database underneath,
/// through which families and snapshots are made.
#[derive(Debug)]
pub struct OptimisticTransactionDB {
    inner: usize,
    base_db: usize,
    cfs: ColumnFamilyRegistry,
}

/// A consistent view of an [`OptimisticTransactionDB`] as of the moment
/// the snapshot was taken. It is read through a transaction that pins the
/// same point in time and writes nothing.
#[derive(Debug)]
pub struct Snapshot<'a> {
    db: &'a OptimisticTransactionDB,
    inner: usize,
}

/// What a database with optimistic transactions must release when it is
/// closed, in order: the handle of every column family, the connection
/// underneath, its own connection.
pub open spec fn closes(
    requests: Seq<Request>,
    db: usize,
    base: usize,
    families: Map<Seq<char>, ColumnFamily>,
) -> bool {
    &&& requests.len() == families.dom().len() + 2
    &&& requests[requests.len() - 2]@ == (Operation::Close { db: base, kind: StoreKind::OptimisticBase })
    &&& requests[requests.len() - 1]@ == (Operation::Close { db, kind: StoreKind::Optimistic })
    &&& forall|i: int|
        0 <= i < requests.len() - 2 ==> (#[trigger] requests[i])@ is ReleaseFamily && issued(
            families,
            requests[i]@->ReleaseFamily_family,
        )
    &&& forall|n: Seq<char>|
        families.contains_key(n) ==> exists|i: int|
            0 <= i < requests.len() - 2 && (#[trigger] requests[i])@ == (Operation::ReleaseFamily {
                family: families[n],
            })
}

impl OptimisticTransactionDB {
    /// The connection to the engine.
    pub closed spec fn handle(&self) -> usize {
        self.inner
    }

    /// The connection to the engine, for the driver.
    pub fn inner(&self) -> (h: usize)
        ensures
            h == self.handle(),
    {
        self.inner
    }

    /// The connection of the plain database underneath, for the driver.
    pub fn base_db(&self) -> (h: usize)
        ensures
            h == self.base(),
    {
        self.base_db
    }

    /// The connection of the plain database underneath.
    pub closed spec fn base(&self) -> usize {
        self.base_db
    }

    /// The registered column families, by name.
    pub closed spec fn families(&self) -> Map<Seq<char>, ColumnFamily> {
        self.cfs@
    }

    /// What to ask of the engine to open the store at `path`, creating it
    /// when it is missing.
    pub fn open_default(path: &str) -> (r: Result<OpenRequest, Error>)
        ensures
            encodable(path) ==> {
                &&& r is Ok
                &&& r->Ok_0.directory@ == path@
                &&& r->Ok_0.path@ == path.spec_bytes().push(0u8)
                &&& r->Ok_0.families@.len() == 0
                &&& r->Ok_0.options == (Options {
                    create_if_missing: true,
                    statistics: false,
                    stats_dump_period_sec: None,
                })
                &&& !r->Ok_0.create_directory
                &&& r->Ok_0.locks is None
            },
            !encodable(path) ==> r is Err && r->Err_0@ == path_message(),
    {
        let mut options = Options::default();
        options.create_if_missing(true);
        OptimisticTransactionDB::open(&options, path)
    }

    /// What to ask of the engine to open the store at `path`.
    pub fn open(opts: &Options, path: &str) -> (r: Result<OpenRequest, Error>)
        ensures
            encodable(path) ==> {
                &&& r is Ok
                &&& r->Ok_0.directory@ == path@
                &&& r->Ok_0.path@ == path.spec_bytes().push(0u8)
                &&& r->Ok_0.families@.len() == 0
                &&& r->Ok_0.options == *opts
                &&& !r->Ok_0.create_directory
                &&& r->Ok_0.locks is None
            },
            !encodable(path) ==> r is Err && r->Err_0@ == path_message(),
    {
        let none: [&str; 0] = [];
        let r = OptimisticTransactionDB::open_cf(opts, path, none.as_slice());
        proof {
            assert(texts_of(none@) =~= Seq::<Seq<char>>::empty());
            if r is Ok {
                assert(names_of(r->Ok_0.families@).len() == 0);
            }
        }
        r
    }

    /// What to ask of the engine to open the store at `path` with the
    /// column families `cfs`. The default family is opened with them
    /// whether or not it is named. Nothing is asked when the path or a
    /// name holds a NUL byte.
    pub fn open_cf(opts: &Options, path: &str, cfs: &[&str]) -> (r: Result<OpenRequest, Error>)
        ensures
            encodable(path) && all_encodable(cfs@) ==> {
                &&& r is Ok
                &&& r->Ok_0.directory@ == path@
                &&& r->Ok_0.path@ == path.spec_bytes().push(0u8)
                &&& names_of(r->Ok_0.families@) == families_opened(texts_of(cfs@))
                &&& r->Ok_0.options == *opts
                &&& !r->Ok_0.create_directory
                &&& r->Ok_0.locks is None
            },
            !(encodable(path) && all_encodable(cfs@)) ==> r is Err && r->Err_0@ == path_message(),
    {
        plan(opts, path, cfs, false, None)
    }

    /// The database that the engine's answer to `request` opens, around
    /// the connection `base_db` of the plain database underneath, or the
    /// error that the answer calls for. The registry holds each family
    /// that was opened; on an error nothing is registered.
    pub fn opened(request: OpenRequest, outcome: Opened, base_db: usize) -> (r: Result<
        OptimisticTransactionDB,
        Error,
    >)
        ensures
            match refusal(request.families@, outcome) {
                Some(message) => r is Err && r->Err_0@ == message,
                None => {
                    &&& r is Ok
                    &&& r->Ok_0.handle() != 0
                    &&& r->Ok_0.handle() == outcome->db
                    &&& r->Ok_0.base() == base_db
                    &&& r->Ok_0.families() == registered(request.families@, outcome->families@)
                },
            },
    {
        match connect(request, outcome) {
            Ok(connection) => Ok(
                OptimisticTransactionDB { inner: connection.db, base_db, cfs: connection.families },
            ),
            Err(e) => Err(e),
        }
    }

    /// What to ask of the engine to begin a transaction.
    pub fn transaction_begin(&self, w_opts: &WriteOptions, txn_opts: &OptimisticTransactionOptions) -> (r:
        Request)
        ensures
            r@ == (Operation::Begin {
                db: self.handle(),
                write: *w_opts,
                isolation: Isolation::Optimistic(*txn_opts),
            }),
    {
        Request::Begin { db: self.inner, write: *w_opts, isolation: Isolation::Optimistic(*txn_opts) }
    }

    /// A snapshot of the database, around the marker that the engine
    /// created for it. A null marker pins nothing and is refused.
    pub fn snapshot(&self, marker: usize) -> (r: Result<Snapshot<'_>, Error>)
        ensures
            marker != 0 ==> {
                &&& r is Ok
                &&& r->Ok_0.marker() == marker
                &&& r->Ok_0.database() == self.handle()
                &&& r->Ok_0.base() == self.base()
                &&& r->Ok_0.families() == self.families()
            },
            marker == 0 ==> r is Err && r->Err_0@ == no_snapshot_message(),
    {
        Snapshot::new(self, marker)
    }

    /// What to ask of the engine to create the column family `name`.
    /// Nothing is asked when the name holds a NUL byte.
    pub fn create_cf(&self, name: &str, opts: &Options) -> (r: Result<Request, Error>)
        ensures
            encodable(name) ==> r is Ok && r->Ok_0@ == (Operation::CreateFamily {
                db: self.base(),
                name: name@,
                options: *opts,
            }),
            !encodable(name) ==> r is Err && r->Err_0@ == path_message(),
    {
        if !is_encodable(name) {
            return Err(Error::path());
        }
        Ok(Request::CreateFamily { db: self.base_db, name: name.to_owned(), options: *opts })
    }

    /// Registers the column family `name` with the handle that the engine
    /// created for it and returns the handle. When the engine failed, or
    /// returned a null handle, the registry stays as it was.
    pub fn created_cf(&mut self, name: &str, created: Created) -> (r: Result<ColumnFamily, Error>)
        ensures
            final(self).handle() == old(self).handle(),
            final(self).base() == old(self).base(),
            match created {
                Created::Failed(message) => {
                    &&& r is Err
                    &&& r->Err_0@ == message@
                    &&& final(self).families() == old(self).families()
                },
                Created::Handle(h) => if h == 0 {
                    &&& r is Err
                    &&& r->Err_0@ == null_family_message()
                    &&& final(self).families() == old(self).families()
                } else {
                    &&& r == Ok::<ColumnFamily, Error>(ColumnFamily { inner: h })
                    &&& final(self).families() == old(self).families().insert(name@, ColumnFamily { inner: h })
                },
            },
    {
        match created {
            Created::Failed(message) => Err(Error::new(message)),
            Created::Handle(h) => {
                if h == 0 {
                    return Err(Error::null_family());
                }
                let cf = ColumnFamily { inner: h };
                self.cfs.insert(name, cf);
                Ok(cf)
            },
        }
    }

    /// Whether `cf` is the handle of a column family that the database
    /// knows. A transaction holds no registry of its own: before a handle
    /// that may have been dropped goes into one, it is asked about here.
    pub fn has_family(&self, cf: ColumnFamily) -> (r: bool)
        ensures
            r == issued(self.families(), cf),
    {
        self.cfs.holds(cf)
    }

    /// The handle of the column family `name`, if it is registered.
    pub fn cf_handle(&self, name: &str) -> (r: Option<ColumnFamily>)
        ensures
            r == (if self.families().contains_key(name@) {
                Some(self.families()[name@])
            } else {
                None
            }),
    {
        self.cfs.get(name)
    }

    /// Takes the column family `name` out of the registry and says what to
    /// ask of the engine to drop it. A name that is not registered is an
    /// error of its own, and nothing is asked.
    pub fn drop_cf(&mut self, name: &str) -> (r: Result<Request, Error>)
        ensures
            final(self).handle() == old(self).handle(),
            final(self).base() == old(self).base(),
            final(self).families() == old(self).families().remove(name@),
            old(self).families().contains_key(name@) ==> r is Ok && r->Ok_0@ == (Operation::DropFamily {
                db: old(self).base(),
                family: old(self).families()[name@],
            }),
            !old(self).families().contains_key(name@) ==> r is Err && r->Err_0@ == invalid_family_prefix()
                + name@,
    {
        match self.cfs.remove(name) {
            Some(cf) => Ok(Request::DropFamily { db: self.base_db, family: cf }),
            None => Err(Error::invalid_family(name)),
        }
    }

    /// What to ask of the engine to destroy the unopened store at `path`.
    pub fn destroy(opts: &Options, path: &str) -> (r: Result<Request, Error>)
        ensures
            encodable(path) ==> r is Ok && r->Ok_0@ == (Operation::Destroy {
                path: path.spec_bytes().push(0u8),
                options: *opts,
            }),
            !encodable(path) ==> r is Err && r->Err_0@ == path_message(),
    {
        match to_cpath(path) {
            Ok(encoded) => Ok(Request::Destroy { path: encoded, options: *opts }),
            Err(e) => Err(e),
        }
    }

    /// Gives up the database and says what to release, in order: the
    /// handle of every column family, the connection underneath, the
    /// database's own connection.
    pub fn close(self) -> (requests: Vec<Request>)
        ensures
            closes(requests@, self.handle(), self.base(), self.families()),
    {
        let handles = self.cfs.handles();
        let mut requests: Vec<Request> = Vec::new();
        let mut i: usize = 0;
        while i < handles.len()
            invariant
                i <= handles.len(),
                requests.len() == i,
                forall|j: int| 0 <= j < i ==> (#[trigger] requests@[j])@ == (Operation::ReleaseFamily {
                    family: handles@[j],
                }),
            decreases handles.len() - i,
        {
            requests.push(Request::ReleaseFamily { family: handles[i] });
            i += 1;
        }
        requests.push(Request::Close { db: self.base_db, kind: StoreKind::OptimisticBase });
        requests.push(Request::Close { db: self.inner, kind: StoreKind::Optimistic });
        proof {
            let families = self.families();
            assert forall|n: Seq<char>| families.contains_key(n) implies exists|i: int|
                0 <= i < requests@.len() - 2 && (#[trigger] requests@[i])@ == (Operation::ReleaseFamily {
                    family: families[n],
                }) by {
                let j = choose|j: int| 0 <= j < handles@.len() && handles@[j] == families[n];
                assert(requests@[j]@ == (Operation::ReleaseFamily { family: families[n] }));
            }
        }
        requests
    }
}

impl<'a> Snapshot<'a> {
    /// The connection of the database that the snapshot was taken of.
    pub closed spec fn database(&self) -> usize {
        self.db.handle()
    }

    /// The connection of the plain database underneath.
    pub closed spec fn base(&self) -> usize {
        self.db.base()
    }

    /// The column families of the database that the snapshot was taken of.
    pub closed spec fn families(&self) -> Map<Seq<char>, ColumnFamily> {
        self.db.families()
    }

    /// What becomes of a read of the family `cf` through `reader`: it is
    /// refused when the database does not know the handle, and else goes
    /// out while the reader is active.
    pub open spec fn grants(
        &self,
        reader: &Transaction,
        cf: ColumnFamily,
        r: Result<Request, Error>,
        operation: Operation,
    ) -> bool {
        if issued(self.families(), cf) {
            reader.asks(r, operation)
        } else {
            r is Err && r->Err_0@ == stale_family_message()
        }
    }

    /// A snapshot of `db`, around the marker that the engine created. A
    /// null marker pins nothing and is refused.
    pub fn new(db: &'a OptimisticTransactionDB, marker: usize) -> (r: Result<Snapshot<'a>, Error>)
        ensures
            marker != 0 ==> {
                &&& r is Ok
                &&& r->Ok_0.marker() == marker
                &&& r->Ok_0.database() == db.handle()
                &&& r->Ok_0.base() == db.base()
                &&& r->Ok_0.families() == db.families()
            },
            marker == 0 ==> r is Err && r->Err_0@ == no_snapshot_message(),
    {
        if marker == 0 {
            Err(Error::no_snapshot())
        } else {
            Ok(Snapshot { db, inner: marker })
        }
    }

    /// What to ask of the engine to begin the transaction through which
    /// the snapshot is read: one that pins a snapshot and writes nothing.
    pub fn reader(&self) -> (r: Request)
        ensures
            r@ == (Operation::Begin {
                db: self.database(),
                write: WriteOptions { sync: false, disable_wal: false },
                isolation: Isolation::Optimistic(OptimisticTransactionOptions { set_snapshot: Some(true) }),
            }),
    {
        let w_opts = WriteOptions::default();
        let mut txn_opts = OptimisticTransactionOptions::default();
        txn_opts.set_snapshot(true);
        self.db.transaction_begin(&w_opts, &txn_opts)
    }

    /// The read of all entries as of the snapshot, through `reader`, for a
    /// cursor.
    pub fn scan(&self, reader: &Transaction) -> (r: Result<Request, Error>)
        ensures
            reader.asks(
                r,
                Operation::Scan {
                    target: Target::Transaction(reader.handle()),
                    family: None,
                    options: pinned_read(self.marker()),
                },
            ),
    {
        let mut r_opts = ReadOptions::default();
        r_opts.set_snapshot(self);
        reader.scan(&r_opts)
    }

    /// The read of all entries of the family `cf` as of the snapshot,
    /// through `reader`, for a cursor. It is refused when the database
    /// does not know `cf`.
    pub fn scan_cf(&self, reader: &Transaction, cf_handle: ColumnFamily) -> (r: Result<Request, Error>)
        ensures
            self.grants(
                reader,
                cf_handle,
                r,
                Operation::Scan {
                    target: Target::Transaction(reader.handle()),
                    family: Some(cf_handle),
                    options: pinned_read(self.marker()),
                },
            ),
    {
        if !self.db.cfs.holds(cf_handle) {
            return Err(Error::stale_family());
        }
        let mut r_opts = ReadOptions::default();
        r_opts.set_snapshot(self);
        reader.scan_cf(cf_handle, &r_opts)
    }

    /// A traversal over the entries that a scan of the snapshot returned.
    pub fn iterator(&self, entries: Vec<KVBytes>, mode: IteratorMode) -> (r: Option<DBIterator>)
        ensures
            r is Some <==> ascending(entries_of(entries@)),
            r is Some ==> {
                &&& r->Some_0.entries() == entries_of(entries@)
                &&& r->Some_0.positioned()
                &&& positioned_by(entries_of(entries@), mode, r->Some_0.cursor(), r->Some_0.direction())
            },
    {
        DBIterator::over(entries, mode)
    }

    /// A cursor over the entries that a scan of the snapshot returned.
    pub fn raw_iterator(&self, entries: Vec<KVBytes>) -> (r: Option<DBRawIterator>)
        ensures
            r is Some <==> ascending(entries_of(entries@)),
            r is Some ==> r->Some_0.entries() == entries_of(entries@) && r->Some_0.cursor() is None,
    {
        DBRawIterator::new(entries)
    }

    /// The read of `key` as of the snapshot, through `reader`.
    pub fn get(&self, reader: &Transaction, key: &[u8]) -> (r: Result<Request, Error>)
        ensures
            reader.asks(
                r,
                Operation::Get {
                    target: Target::Transaction(reader.handle()),
                    family: None,
                    key: key@,
                    options: pinned_read(self.marker()),
                },
            ),
    {
        let mut r_opts = ReadOptions::default();
        r_opts.set_snapshot(self);
        reader.get_opt(key, &r_opts)
    }

    /// The read of `key` in the family `cf` as of the snapshot, through
    /// `reader`. It is refused when the database does not know `cf`.
    pub fn get_cf(&self, reader: &Transaction, cf: ColumnFamily, key: &[u8]) -> (r: Result<Request, Error>)
        ensures
            self.grants(
                reader,
                cf,
                r,
                Operation::Get {
                    target: Target::Transaction(reader.handle()),
                    family: Some(cf),
                    key: key@,
                    options: pinned_read(self.marker()),
                },
            ),
    {
        if !self.db.cfs.holds(cf) {
            return Err(Error::stale_family());
        }
        let mut r_opts = ReadOptions::default();
        r_opts.set_snapshot(self);
        reader.get_cf_opt(key, cf, &r_opts)
    }

    /// Gives up the snapshot and says what to release. The snapshot is
    /// consumed: it cannot be released twice, nor read afterwards.
    pub fn release(self) -> (r: Request)
        ensures
            r@ == (Operation::ReleaseSnapshot { source: Target::Database(self.base()), snapshot: self.marker() }),
    {
        Request::ReleaseSnapshot { source: Target::Database(self.db.base_db), snapshot: self.inner }
    }
}

impl<'a> Inner for Snapshot<'a> {
    closed spec fn marker(&self) -> usize {
        self.inner
    }

    fn get_inner(&self) -> (m: usize) {
        self.inner
    }
}

} // verus!
