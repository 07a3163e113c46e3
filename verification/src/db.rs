//! The plain database: a connection to the engine, the registry of its
//! column families and the path of its store.

use vstd::prelude::*;
use vstd::string::StringSliceAdditionalSpecFns;
use crate::column_family::{issued, ColumnFamily, ColumnFamilyRegistry};
use crate::error::{
    invalid_family_prefix, name_message, no_snapshot_message, null_family_message, path_message,
    stale_family_message, Error,
};
use crate::iterator::{
    ascending, entries_of, positioned_by, DBIterator, DBRawIterator, IteratorMode, KVBytes,
};
use crate::open::{
    all_encodable, connect, families_opened, names_of, plan, refusal, registered, texts_of, OpenRequest, Opened,
};
use crate::options::{pinned_read, plain_read, Inner, Options, ReadOptions, WriteOptions};
use crate::request::{Operation, Request, StoreKind, Target};
use crate::utils::{encodable, is_encodable, to_cpath};
use crate::write_batch::{all_within, Mutation, WriteBatch};

verus! {

/// An open database.
#[derive(Debug)]
pub struct DB {
    inner: usize,
    cfs: ColumnFamilyRegistry,
    path: String,
}

/// A consistent view of a database as of the moment the snapshot was taken.
/// It borrows the database, so it cannot outlive it, and it is released by
/// value, so it is released once.
#[derive(Debug)]
pub struct Snapshot<'a> {
    db: &'a DB,
    inner: usize,
}

/// The engine's answer to creating a column family.
#[derive(Debug)]
pub enum Created {
    /// The engine reported a failure, with its message.
    Failed(String),
    /// The engine returned this handle; zero stands for a null handle.
    Handle(usize),
}

/// What a database must release when it is closed, in order: the handle
/// of every column family first, the connection last.
pub open spec fn closes(requests: Seq<Request>, db: usize, families: Map<Seq<char>, ColumnFamily>) -> bool {
    &&& requests.len() == families.dom().len() + 1
    &&& requests.last()@ == (Operation::Close { db, kind: StoreKind::Plain })
    &&& forall|i: int|
        0 <= i < requests.len() - 1 ==> (#[trigger] requests[i])@ is ReleaseFamily && issued(
            families,
            requests[i]@->ReleaseFamily_family,
        )
    &&& forall|n: Seq<char>|
        families.contains_key(n) ==> exists|i: int|
            0 <= i < requests.len() - 1 && (#[trigger] requests[i])@ == (Operation::ReleaseFamily {
                family: families[n],
            })
}

impl DB {
    /// The connection to the engine.
    pub closed spec fn handle(&self) -> usize {
        self.inner
    }

    /// The connection to the engine, for the driver.
    pub fn inner(&self) -> (h: usize)
        ensures
            h == self.handle(),
    {
        self.inner
    }

    /// The registered column families, by name.
    pub closed spec fn families(&self) -> Map<Seq<char>, ColumnFamily> {
        self.cfs@
    }

    /// The path of the store.
    pub closed spec fn location(&self) -> Seq<char> {
        self.path@
    }

    /// What becomes of a request that names the column family `cf`: it
    /// goes out when the database knows the handle, and is refused when it
    /// does not, as after the family was dropped.
    pub open spec fn grants(&self, cf: ColumnFamily, r: Result<Request, Error>, operation: Operation) -> bool {
        if issued(self.families(), cf) {
            r is Ok && r->Ok_0@ == operation
        } else {
            r is Err && r->Err_0@ == stale_family_message()
        }
    }

    fn scoped(&self, cf: ColumnFamily, request: Request) -> (r: Result<Request, Error>)
        ensures
            self.grants(cf, r, request@),
    {
        if self.cfs.holds(cf) {
            Ok(request)
        } else {
            Err(Error::stale_family())
        }
    }

    /// Whether `cf` is the handle of a column family that the database
    /// knows.
    pub fn has_family(&self, cf: ColumnFamily) -> (r: bool)
        ensures
            r == issued(self.families(), cf),
    {
        self.cfs.holds(cf)
    }

    /// What to ask of the engine to open the store at `path`, creating it
    /// when it is missing.
    pub fn open_default(path: &str) -> (r: Result<OpenRequest, Error>)
        ensures
            encodable(path) ==> {
                &&& r is Ok
                &&& r->Ok_0.directory@ == path@
                &&& r->Ok_0.path@ == path.spec_bytes().push(0u8)
                &&& r->Ok_0.families@.len() == 0
                &&& r->Ok_0.options == (Options {
                    create_if_missing: true,
                    statistics: false,
                    stats_dump_period_sec: None,
                })
                &&& r->Ok_0.create_directory
                &&& r->Ok_0.locks is None
            },
            !encodable(path) ==> r is Err && r->Err_0@ == path_message(),
    {
        let mut opts = Options::default();
        opts.create_if_missing(true);
        DB::open(&opts, path)
    }

    /// What to ask of the engine to open the store at `path`.
    pub fn open(opts: &Options, path: &str) -> (r: Result<OpenRequest, Error>)
        ensures
            encodable(path) ==> {
                &&& r is Ok
                &&& r->Ok_0.directory@ == path@
                &&& r->Ok_0.path@ == path.spec_bytes().push(0u8)
                &&& r->Ok_0.families@.len() == 0
                &&& r->Ok_0.options == *opts
                &&& r->Ok_0.create_directory
                &&& r->Ok_0.locks is None
            },
            !encodable(path) ==> r is Err && r->Err_0@ == path_message(),
    {
        let none: [&str; 0] = [];
        let r = DB::open_cf(opts, path, none.as_slice());
        proof {
            assert(texts_of(none@) =~= Seq::<Seq<char>>::empty());
            if r is Ok {
                assert(names_of(r->Ok_0.families@).len() == 0);
            }
        }
        r
    }

    /// What to ask of the engine to open the store at `path` with the
    /// column families `cfs`. The default family is opened with them
    /// whether or not it is named. Nothing is asked when the path or a
    /// name holds a NUL byte.
    pub fn open_cf(opts: &Options, path: &str, cfs: &[&str]) -> (r: Result<OpenRequest, Error>)
        ensures
            encodable(path) && all_encodable(cfs@) ==> {
                &&& r is Ok
                &&& r->Ok_0.directory@ == path@
                &&& r->Ok_0.path@ == path.spec_bytes().push(0u8)
                &&& names_of(r->Ok_0.families@) == families_opened(texts_of(cfs@))
                &&& r->Ok_0.options == *opts
                &&& r->Ok_0.create_directory
                &&& r->Ok_0.locks is None
            },
            !(encodable(path) && all_encodable(cfs@)) ==> r is Err && r->Err_0@ == path_message(),
    {
        plan(opts, path, cfs, true, None)
    }

    /// The database that the engine's answer to `request` opens, or the
    /// error that the answer calls for. The registry holds each family
    /// that was opened; on an error nothing is registered.
    pub fn opened(request: OpenRequest, outcome: Opened) -> (r: Result<DB, Error>)
        ensures
            match refusal(request.families@, outcome) {
                Some(message) => r is Err && r->Err_0@ == message,
                None => {
                    &&& r is Ok
                    &&& r->Ok_0.handle() != 0
                    &&& r->Ok_0.handle() == outcome->db
                    &&& r->Ok_0.location() == request.directory@
                    &&& r->Ok_0.families() == registered(request.families@, outcome->families@)
                },
            },
    {
        match connect(request, outcome) {
            Ok(connection) => Ok(DB { inner: connection.db, cfs: connection.families, path: connection.path }),
            Err(e) => Err(e),
        }
    }

    /// What to ask of the engine to destroy the unopened store at `path`.
    pub fn destroy(opts: &Options, path: &str) -> (r: Result<Request, Error>)
        ensures
            encodable(path) ==> r is Ok && r->Ok_0@ == (Operation::Destroy {
                path: path.spec_bytes().push(0u8),
                options: *opts,
            }),
            !encodable(path) ==> r is Err && r->Err_0@ == path_message(),
    {
        match to_cpath(path) {
            Ok(encoded) => Ok(Request::Destroy { path: encoded, options: *opts }),
            Err(e) => Err(e),
        }
    }

    /// What to ask of the engine to repair the unopened store at `path`.
    pub fn repair(opts: Options, path: &str) -> (r: Result<Request, Error>)
        ensures
            encodable(path) ==> r is Ok && r->Ok_0@ == (Operation::Repair {
                path: path.spec_bytes().push(0u8),
                options: opts,
            }),
            !encodable(path) ==> r is Err && r->Err_0@ == path_message(),
    {
        match to_cpath(path) {
            Ok(encoded) => Ok(Request::Repair { path: encoded, options: opts }),
            Err(e) => Err(e),
        }
    }

    /// The path of the store.
    pub fn path(&self) -> (p: &str)
        ensures
            p@ == self.location(),
    {
        self.path.as_str()
    }

    /// What becomes of the write of a batch: it goes out when the
    /// database knows every column family that the batch names, and is
    /// refused otherwise.
    pub open spec fn applies(
        &self,
        batch: Seq<Mutation>,
        r: Result<Request, Error>,
        options: WriteOptions,
    ) -> bool {
        if all_within(batch, self.families()) {
            r is Ok && r->Ok_0@ == (Operation::Write { db: self.handle(), batch, options })
        } else {
            r is Err && r->Err_0@ == stale_family_message()
        }
    }

    /// The atomic write of `batch` with the given options. The batch is
    /// consumed: it cannot be applied twice. An empty batch is written
    /// like any other.
    pub fn write_opt(&self, batch: WriteBatch, writeopts: &WriteOptions) -> (r: Result<Request, Error>)
        ensures
            self.applies(batch@, r, *writeopts),
    {
        if batch.within(&self.cfs) {
            Ok(Request::Write { db: self.inner, batch, options: *writeopts })
        } else {
            Err(Error::stale_family())
        }
    }

    /// The atomic write of `batch` with default options.
    pub fn write(&self, batch: WriteBatch) -> (r: Result<Request, Error>)
        ensures
            self.applies(batch@, r, WriteOptions { sync: false, disable_wal: false }),
    {
        self.write_opt(batch, &WriteOptions::default())
    }

    /// The atomic write of `batch` past the write-ahead log.
    pub fn write_without_wal(&self, batch: WriteBatch) -> (r: Result<Request, Error>)
        ensures
            self.applies(batch@, r, WriteOptions { sync: false, disable_wal: true }),
    {
        let mut wo = WriteOptions::new();
        wo.disable_wal(true);
        self.write_opt(batch, &wo)
    }

    /// The read of `key` with the given options.
    pub fn get_opt(&self, key: &[u8], readopts: &ReadOptions) -> (r: Request)
        ensures
            r@ == (Operation::Get {
                target: Target::Database(self.handle()),
                family: None,
                key: key@,
                options: readopts@,
            }),
    {
        Request::get(Target::Database(self.inner), None, key, readopts)
    }

    /// The read of `key` as the database stands now.
    pub fn get(&self, key: &[u8]) -> (r: Request)
        ensures
            r@ == (Operation::Get {
                target: Target::Database(self.handle()),
                family: None,
                key: key@,
                options: plain_read(),
            }),
    {
        self.get_opt(key, &ReadOptions::default())
    }

    /// The read of `key` in the family `cf` with the given options.
    /// It is refused when the database does not know `cf`.
    pub fn get_cf_opt(&self, cf: ColumnFamily, key: &[u8], readopts: &ReadOptions) -> (r: Result<
        Request,
        Error,
    >)
        ensures
            self.grants(
                cf,
                r,
                Operation::Get {
                    target: Target::Database(self.handle()),
                    family: Some(cf),
                    key: key@,
                    options: readopts@,
                },
            ),
    {
        let request = Request::get(Target::Database(self.inner), Some(cf), key, readopts);
        self.scoped(cf, request)
    }

    /// The read of `key` in the family `cf` as the database stands now.
    /// It is refused when the database does not know `cf`.
    pub fn get_cf(&self, cf: ColumnFamily, key: &[u8]) -> (r: Result<Request, Error>)
        ensures
            self.grants(
                cf,
                r,
                Operation::Get {
                    target: Target::Database(self.handle()),
                    family: Some(cf),
                    key: key@,
                    options: plain_read(),
                },
            ),
    {
        self.get_cf_opt(cf, key, &ReadOptions::default())
    }

    /// What to ask of the engine to create the column family `name`.
    /// Nothing is asked when the name holds a NUL byte.
    pub fn create_cf(&self, name: &str, opts: &Options) -> (r: Result<Request, Error>)
        ensures
            encodable(name) ==> r is Ok && r->Ok_0@ == (Operation::CreateFamily {
                db: self.handle(),
                name: name@,
                options: *opts,
            }),
            !encodable(name) ==> r is Err && r->Err_0@ == name_message(),
    {
        if !is_encodable(name) {
            return Err(Error::name());
        }
        Ok(Request::CreateFamily { db: self.inner, name: name.to_owned(), options: *opts })
    }

    /// Registers the column family `name` with the handle that the engine
    /// created for it and returns the handle. When the engine failed, or
    /// returned a null handle, the registry stays as it was.
    pub fn created_cf(&mut self, name: &str, created: Created) -> (r: Result<ColumnFamily, Error>)
        ensures
            final(self).handle() == old(self).handle(),
            final(self).location() == old(self).location(),
            match created {
                Created::Failed(message) => {
                    &&& r is Err
                    &&& r->Err_0@ == message@
                    &&& final(self).families() == old(self).families()
                },
                Created::Handle(h) => if h == 0 {
                    &&& r is Err
                    &&& r->Err_0@ == null_family_message()
                    &&& final(self).families() == old(self).families()
                } else {
                    &&& r == Ok::<ColumnFamily, Error>(ColumnFamily { inner: h })
                    &&& final(self).families() == old(self).families().insert(name@, ColumnFamily { inner: h })
                },
            },
    {
        match created {
            Created::Failed(message) => Err(Error::new(message)),
            Created::Handle(h) => {
                if h == 0 {
                    return Err(Error::null_family());
                }
                let cf = ColumnFamily { inner: h };
                self.cfs.insert(name, cf);
                Ok(cf)
            },
        }
    }

    /// Takes the column family `name` out of the registry and says what to
    /// ask of the engine to drop it. A name that is not registered is an
    /// error of its own, and nothing is asked.
    pub fn drop_cf(&mut self, name: &str) -> (r: Result<Request, Error>)
        ensures
            final(self).handle() == old(self).handle(),
            final(self).location() == old(self).location(),
            final(self).families() == old(self).families().remove(name@),
            old(self).families().contains_key(name@) ==> r is Ok && r->Ok_0@ == (Operation::DropFamily {
                db: old(self).handle(),
                family: old(self).families()[name@],
            }),
            !old(self).families().contains_key(name@) ==> r is Err && r->Err_0@ == invalid_family_prefix()
                + name@,
    {
        match self.cfs.remove(name) {
            Some(cf) => Ok(Request::DropFamily { db: self.inner, family: cf }),
            None => Err(Error::invalid_family(name)),
        }
    }

    /// The handle of the column family `name`, if it is registered.
    pub fn cf_handle(&self, name: &str) -> (r: Option<ColumnFamily>)
        ensures
            r == (if self.families().contains_key(name@) {
                Some(self.families()[name@])
            } else {
                None
            }),
    {
        self.cfs.get(name)
    }

    /// The read of all entries, as the database stands now, for a cursor.
    pub fn scan(&self) -> (r: Request)
        ensures
            r@ == (Operation::Scan {
                target: Target::Database(self.handle()),
                family: None,
                options: plain_read(),
            }),
    {
        Request::scan(Target::Database(self.inner), None, &ReadOptions::default())
    }

    /// The read of all entries of the family `cf`, as the database stands
    /// now, for a cursor.
    /// It is refused when the database does not know `cf_handle`.
    pub fn scan_cf(&self, cf_handle: ColumnFamily) -> (r: Result<Request, Error>)
        ensures
            self.grants(
                cf_handle,
                r,
                Operation::Scan {
                    target: Target::Database(self.handle()),
                    family: Some(cf_handle),
                    options: plain_read(),
                },
            ),
    {
        let request = Request::scan(Target::Database(self.inner), Some(cf_handle), &ReadOptions::default());
        self.scoped(cf_handle, request)
    }

    /// A traversal over the entries that a scan of the database returned.
    pub fn iterator(&self, entries: Vec<KVBytes>, mode: IteratorMode) -> (r: Option<DBIterator>)
        ensures
            r is Some <==> ascending(entries_of(entries@)),
            r is Some ==> {
                &&& r->Some_0.entries() == entries_of(entries@)
                &&& r->Some_0.positioned()
                &&& positioned_by(entries_of(entries@), mode, r->Some_0.cursor(), r->Some_0.direction())
            },
    {
        DBIterator::over(entries, mode)
    }

    /// A cursor over the entries that a scan of the database returned.
    pub fn raw_iterator(&self, entries: Vec<KVBytes>) -> (r: Option<DBRawIterator>)
        ensures
            r is Some <==> ascending(entries_of(entries@)),
            r is Some ==> r->Some_0.entries() == entries_of(entries@) && r->Some_0.cursor() is None,
    {
        DBRawIterator::new(entries)
    }

    /// A snapshot of the database, around the marker that the engine
    /// created for it. A null marker pins nothing and is refused.
    pub fn snapshot(&self, marker: usize) -> (r: Result<Snapshot<'_>, Error>)
        ensures
            marker != 0 ==> {
                &&& r is Ok
                &&& r->Ok_0.marker() == marker
                &&& r->Ok_0.database() == self.handle()
                &&& r->Ok_0.families() == self.families()
            },
            marker == 0 ==> r is Err && r->Err_0@ == no_snapshot_message(),
    {
        Snapshot::new(self, marker)
    }

    /// The put of `value` under `key` with the given options.
    pub fn put_opt(&self, key: &[u8], value: &[u8], writeopts: &WriteOptions) -> (r: Request)
        ensures
            r@ == (Operation::Put {
                target: Target::Database(self.handle()),
                family: None,
                key: key@,
                value: value@,
                options: Some(*writeopts),
            }),
    {
        Request::put(Target::Database(self.inner), None, key, value, Some(*writeopts))
    }

    /// The put of `value` under `key` in the family `cf` with the given
    /// options.
    /// It is refused when the database does not know `cf`.
    pub fn put_cf_opt(
        &self,
        cf: ColumnFamily,
        key: &[u8],
        value: &[u8],
        writeopts: &WriteOptions,
    ) -> (r: Result<Request, Error>)
        ensures
            self.grants(
                cf,
                r,
                Operation::Put {
                    target: Target::Database(self.handle()),
                    family: Some(cf),
                    key: key@,
                    value: value@,
                    options: Some(*writeopts),
                },
            ),
    {
        let request = Request::put(Target::Database(self.inner), Some(cf), key, value, Some(*writeopts));
        self.scoped(cf, request)
    }

    /// The merge of `value` into what `key` holds, with the given options.
    pub fn merge_opt(&self, key: &[u8], value: &[u8], writeopts: &WriteOptions) -> (r: Request)
        ensures
            r@ == (Operation::Merge {
                target: Target::Database(self.handle()),
                family: None,
                key: key@,
                value: value@,
                options: Some(*writeopts),
            }),
    {
        Request::merge(Target::Database(self.inner), None, key, value, Some(*writeopts))
    }

    /// The merge of `value` into what `key` holds in the family `cf`, with
    /// the given options.
    /// It is refused when the database does not know `cf`.
    pub fn merge_cf_opt(
        &self,
        cf: ColumnFamily,
        key: &[u8],
        value: &[u8],
        writeopts: &WriteOptions,
    ) -> (r: Result<Request, Error>)
        ensures
            self.grants(
                cf,
                r,
                Operation::Merge {
                    target: Target::Database(self.handle()),
                    family: Some(cf),
                    key: key@,
                    value: value@,
                    options: Some(*writeopts),
                },
            ),
    {
        let request = Request::merge(Target::Database(self.inner), Some(cf), key, value, Some(*writeopts));
        self.scoped(cf, request)
    }

    /// The removal of `key` with the given options.
    pub fn delete_opt(&self, key: &[u8], writeopts: &WriteOptions) -> (r: Request)
        ensures
            r@ == (Operation::Delete {
                target: Target::Database(self.handle()),
                family: None,
                key: key@,
                options: Some(*writeopts),
            }),
    {
        Request::delete(Target::Database(self.inner), None, key, Some(*writeopts))
    }

    /// The removal of `key` from the family `cf` with the given options.
    /// It is refused when the database does not know `cf`.
    pub fn delete_cf_opt(&self, cf: ColumnFamily, key: &[u8], writeopts: &WriteOptions) -> (r: Result<
        Request,
        Error,
    >)
        ensures
            self.grants(
                cf,
                r,
                Operation::Delete {
                    target: Target::Database(self.handle()),
                    family: Some(cf),
                    key: key@,
                    options: Some(*writeopts),
                },
            ),
    {
        let request = Request::delete(Target::Database(self.inner), Some(cf), key, Some(*writeopts));
        self.scoped(cf, request)
    }

    /// The put of `value` under `key` with default options.
    pub fn put(&self, key: &[u8], value: &[u8]) -> (r: Request)
        ensures
            r@ == (Operation::Put {
                target: Target::Database(self.handle()),
                family: None,
                key: key@,
                value: value@,
                options: Some(WriteOptions { sync: false, disable_wal: false }),
            }),
    {
        self.put_opt(key, value, &WriteOptions::default())
    }

    /// The put of `value` under `key` in the family `cf` with default
    /// options.
    /// It is refused when the database does not know `cf`.
    pub fn put_cf(&self, cf: ColumnFamily, key: &[u8], value: &[u8]) -> (r: Result<Request, Error>)
        ensures
            self.grants(
                cf,
                r,
                Operation::Put {
                    target: Target::Database(self.handle()),
                    family: Some(cf),
                    key: key@,
                    value: value@,
                    options: Some(WriteOptions { sync: false, disable_wal: false }),
                },
            ),
    {
        self.put_cf_opt(cf, key, value, &WriteOptions::default())
    }

    /// The merge of `value` into what `key` holds, with default options.
    pub fn merge(&self, key: &[u8], value: &[u8]) -> (r: Request)
        ensures
            r@ == (Operation::Merge {
                target: Target::Database(self.handle()),
                family: None,
                key: key@,
                value: value@,
                options: Some(WriteOptions { sync: false, disable_wal: false }),
            }),
    {
        self.merge_opt(key, value, &WriteOptions::default())
    }

    /// The merge of `value` into what `key` holds in the family `cf`, with
    /// default options.
    /// It is refused when the database does not know `cf`.
    pub fn merge_cf(&self, cf: ColumnFamily, key: &[u8], value: &[u8]) -> (r: Result<Request, Error>)
        ensures
            self.grants(
                cf,
                r,
                Operation::Merge {
                    target: Target::Database(self.handle()),
                    family: Some(cf),
                    key: key@,
                    value: value@,
                    options: Some(WriteOptions { sync: false, disable_wal: false }),
                },
            ),
    {
        self.merge_cf_opt(cf, key, value, &WriteOptions::default())
    }

    /// The removal of `key` with default options.
    pub fn delete(&self, key: &[u8]) -> (r: Request)
        ensures
            r@ == (Operation::Delete {
                target: Target::Database(self.handle()),
                family: None,
                key: key@,
                options: Some(WriteOptions { sync: false, disable_wal: false }),
            }),
    {
        self.delete_opt(key, &WriteOptions::default())
    }

    /// The removal of `key` from the family `cf` with default options.
    /// It is refused when the database does not know `cf`.
    pub fn delete_cf(&self, cf: ColumnFamily, key: &[u8]) -> (r: Result<Request, Error>)
        ensures
            self.grants(
                cf,
                r,
                Operation::Delete {
                    target: Target::Database(self.handle()),
                    family: Some(cf),
                    key: key@,
                    options: Some(WriteOptions { sync: false, disable_wal: false }),
                },
            ),
    {
        self.delete_cf_opt(cf, key, &WriteOptions::default())
    }

    /// The compaction of the keys from `start` to `end`.
    pub fn compact_range(&self, start: Option<&[u8]>, end: Option<&[u8]>) -> (r: Request)
        ensures
            r@ == (Operation::CompactRange {
                db: self.handle(),
                family: None,
                start: match start {
                    Some(k) => Some(k@),
                    None => None,
                },
                end: match end {
                    Some(k) => Some(k@),
                    None => None,
                },
            }),
    {
        Request::compact_range(self.inner, None, start, end)
    }

    /// The compaction of the keys from `start` to `end` in the family `cf`.
    /// It is refused when the database does not know `cf`.
    pub fn compact_range_cf(&self, cf: ColumnFamily, start: Option<&[u8]>, end: Option<&[u8]>) -> (r: Result<
        Request,
        Error,
    >)
        ensures
            self.grants(
                cf,
                r,
                Operation::CompactRange {
                    db: self.handle(),
                    family: Some(cf),
                    start: match start {
                        Some(k) => Some(k@),
                        None => None,
                    },
                    end: match end {
                        Some(k) => Some(k@),
                        None => None,
                    },
                },
            ),
    {
        let request = Request::compact_range(self.inner, Some(cf), start, end);
        self.scoped(cf, request)
    }

    /// Gives up the database and says what to release, in order: the
    /// handle of every column family first, the connection last.
    pub fn close(self) -> (requests: Vec<Request>)
        ensures
            closes(requests@, self.handle(), self.families()),
    {
        let handles = self.cfs.handles();
        let mut requests: Vec<Request> = Vec::new();
        let mut i: usize = 0;
        while i < handles.len()
            invariant
                i <= handles.len(),
                requests.len() == i,
                forall|j: int| 0 <= j < i ==> (#[trigger] requests@[j])@ == (Operation::ReleaseFamily {
                    family: handles@[j],
                }),
            decreases handles.len() - i,
        {
            requests.push(Request::ReleaseFamily { family: handles[i] });
            i += 1;
        }
        requests.push(Request::Close { db: self.inner, kind: StoreKind::Plain });
        proof {
            let families = self.families();
            assert forall|n: Seq<char>| families.contains_key(n) implies exists|i: int|
                0 <= i < requests@.len() - 1 && (#[trigger] requests@[i])@ == (Operation::ReleaseFamily {
                    family: families[n],
                }) by {
                let j = choose|j: int| 0 <= j < handles@.len() && handles@[j] == families[n];
                assert(requests@[j]@ == (Operation::ReleaseFamily { family: families[n] }));
            }
        }
        requests
    }
}

impl<'a> Snapshot<'a> {
    /// The connection of the database that the snapshot was taken of.
    pub closed spec fn database(&self) -> usize {
        self.db.handle()
    }

    /// The column families of the database that the snapshot was taken of.
    pub closed spec fn families(&self) -> Map<Seq<char>, ColumnFamily> {
        self.db.families()
    }

    /// What becomes of a read that names the column family `cf`: it goes
    /// out when the database knows the handle and is refused otherwise.
    pub open spec fn grants(&self, cf: ColumnFamily, r: Result<Request, Error>, operation: Operation) -> bool {
        if issued(self.families(), cf) {
            r is Ok && r->Ok_0@ == operation
        } else {
            r is Err && r->Err_0@ == stale_family_message()
        }
    }

    /// A snapshot of `db`, around the marker that the engine created. A
    /// null marker pins nothing and is refused.
    pub fn new(db: &'a DB, marker: usize) -> (r: Result<Snapshot<'a>, Error>)
        ensures
            marker != 0 ==> {
                &&& r is Ok
                &&& r->Ok_0.marker() == marker
                &&& r->Ok_0.database() == db.handle()
                &&& r->Ok_0.families() == db.families()
            },
            marker == 0 ==> r is Err && r->Err_0@ == no_snapshot_message(),
    {
        if marker == 0 {
            Err(Error::no_snapshot())
        } else {
            Ok(Snapshot { db, inner: marker })
        }
    }

    /// The read of all entries as of the snapshot, for a cursor.
    pub fn scan(&self) -> (r: Request)
        ensures
            r@ == (Operation::Scan {
                target: Target::Database(self.database()),
                family: None,
                options: pinned_read(self.marker()),
            }),
    {
        let mut readopts = ReadOptions::default();
        readopts.set_snapshot(self);
        Request::scan(Target::Database(self.db.inner), None, &readopts)
    }

    /// The read of all entries of the family `cf` as of the snapshot, for
    /// a cursor.
    /// It is refused when the database does not know `cf_handle`.
    pub fn scan_cf(&self, cf_handle: ColumnFamily) -> (r: Result<Request, Error>)
        ensures
            self.grants(
                cf_handle,
                r,
                Operation::Scan {
                    target: Target::Database(self.database()),
                    family: Some(cf_handle),
                    options: pinned_read(self.marker()),
                },
            ),
    {
        let mut readopts = ReadOptions::default();
        readopts.set_snapshot(self);
        let request = Request::scan(Target::Database(self.db.inner), Some(cf_handle), &readopts);
        self.db.scoped(cf_handle, request)
    }

    /// A traversal over the entries that a scan of the snapshot returned.
    pub fn iterator(&self, entries: Vec<KVBytes>, mode: IteratorMode) -> (r: Option<DBIterator>)
        ensures
            r is Some <==> ascending(entries_of(entries@)),
            r is Some ==> {
                &&& r->Some_0.entries() == entries_of(entries@)
                &&& r->Some_0.positioned()
                &&& positioned_by(entries_of(entries@), mode, r->Some_0.cursor(), r->Some_0.direction())
            },
    {
        DBIterator::over(entries, mode)
    }

    /// A cursor over the entries that a scan of the snapshot returned.
    pub fn raw_iterator(&self, entries: Vec<KVBytes>) -> (r: Option<DBRawIterator>)
        ensures
            r is Some <==> ascending(entries_of(entries@)),
            r is Some ==> r->Some_0.entries() == entries_of(entries@) && r->Some_0.cursor() is None,
    {
        DBRawIterator::new(entries)
    }

    /// The read of `key` as of the snapshot.
    pub fn get(&self, key: &[u8]) -> (r: Request)
        ensures
            r@ == (Operation::Get {
                target: Target::Database(self.database()),
                family: None,
                key: key@,
                options: pinned_read(self.marker()),
            }),
    {
        let mut readopts = ReadOptions::default();
        readopts.set_snapshot(self);
        self.db.get_opt(key, &readopts)
    }

    /// The read of `key` in the family `cf` as of the snapshot.
    /// It is refused when the database does not know `cf`.
    pub fn get_cf(&self, cf: ColumnFamily, key: &[u8]) -> (r: Result<Request, Error>)
        ensures
            self.grants(
                cf,
                r,
                Operation::Get {
                    target: Target::Database(self.database()),
                    family: Some(cf),
                    key: key@,
                    options: pinned_read(self.marker()),
                },
            ),
    {
        let mut readopts = ReadOptions::default();
        readopts.set_snapshot(self);
        self.db.get_cf_opt(cf, key, &readopts)
    }

    /// Gives up the snapshot and says what to release. The snapshot is
    /// consumed: it cannot be released twice, nor read afterwards.
    pub fn release(self) -> (r: Request)
        ensures
            r@ == (Operation::ReleaseSnapshot {
                source: Target::Database(self.database()),
                snapshot: self.marker(),
            }),
    {
        Request::ReleaseSnapshot { source: Target::Database(self.db.inner), snapshot: self.inner }
    }
}

impl<'a> Inner for Snapshot<'a> {
    closed spec fn marker(&self) -> usize {
        self.inner
    }

    fn get_inner(&self) -> (m: usize) {
        self.inner
    }
}

} // verus!
