//! The boundary to the storage engine.
//!
//! The layer never touches the engine. A call that needs it returns a
//! [`Request`], which says exactly which engine operation is meant; a driver
//! performs it and hands the engine's answer back as a plain value, which
//! the functions at the end of this file turn into the caller's result.

use vstd::prelude::*;
use vstd::slice::slice_to_vec;
use crate::column_family::ColumnFamily;
use crate::db_vector::DBVector;
use crate::error::{read_options_message, Error};
use crate::options::{
    OptimisticTransactionOptions, Options, ReadOptions, ReadSettings, TransactionOptions, WriteOptions,
};
use crate::write_batch::{Mutation, WriteBatch};

verus! {

/// What an operation reads from or writes to.
#[derive(Clone, Copy, Debug)]
pub enum Target {
    /// An open database, by its connection.
    Database(usize),
    /// An open database with pessimistic transactions, by its connection.
    TransactionDatabase(usize),
    /// An open transaction, by its handle.
    Transaction(usize),
}

/// The kind of connection that is to be closed.
#[derive(Clone, Copy, Debug, PartialEq, Eq, Structural)]
pub enum StoreKind {
    /// A plain database.
    Plain,
    /// A database with pessimistic transactions.
    Pessimistic,
    /// A database with optimistic transactions.
    Optimistic,
    /// The plain database underneath one with optimistic transactions.
    OptimisticBase,
}

/// How a transaction guards against concurrent writers, with its options.
#[derive(Clone, Copy, Debug)]
pub enum Isolation {
    /// Keys are locked as they are written.
    Pessimistic(TransactionOptions),
    /// Conflicts are looked for when the transaction commits.
    Optimistic(OptimisticTransactionOptions),
}

/// An engine operation in contracts.
#[allow(inconsistent_fields)]
pub enum Operation {
    Get { target: Target, family: Option<ColumnFamily>, key: Seq<u8>, options: ReadSettings },
    Put {
        target: Target,
        family: Option<ColumnFamily>,
        key: Seq<u8>,
        value: Seq<u8>,
        options: Option<WriteOptions>,
    },
    Merge {
        target: Target,
        family: Option<ColumnFamily>,
        key: Seq<u8>,
        value: Seq<u8>,
        options: Option<WriteOptions>,
    },
    Delete { target: Target, family: Option<ColumnFamily>, key: Seq<u8>, options: Option<WriteOptions> },
    Write { db: usize, batch: Seq<Mutation>, options: WriteOptions },
    Scan { target: Target, family: Option<ColumnFamily>, options: ReadSettings },
    Begin { db: usize, write: WriteOptions, isolation: Isolation },
    Commit { transaction: usize },
    Rollback { transaction: usize },
    CreateFamily { db: usize, name: Seq<char>, options: Options },
    DropFamily { db: usize, family: ColumnFamily },
    CompactRange { db: usize, family: Option<ColumnFamily>, start: Option<Seq<u8>>, end: Option<Seq<u8>> },
    ReleaseSnapshot { source: Target, snapshot: usize },
    ReleaseFamily { family: ColumnFamily },
    ReleaseTransaction { transaction: usize },
    Close { db: usize, kind: StoreKind },
    Destroy { path: Seq<u8>, options: Options },
    Repair { path: Seq<u8>, options: Options },
}

/// An engine operation for the driver to perform.
#[derive(Debug)]
#[allow(inconsistent_fields)]
pub enum Request {
    /// Read the value under `key`.
    Get { target: Target, family: Option<ColumnFamily>, key: Vec<u8>, options: ReadOptions },
    /// Store `value` under `key`.
    Put {
        target: Target,
        family: Option<ColumnFamily>,
        key: Vec<u8>,
        value: Vec<u8>,
        options: Option<WriteOptions>,
    },
    /// Merge `value` into what `key` holds.
    Merge {
        target: Target,
        family: Option<ColumnFamily>,
        key: Vec<u8>,
        value: Vec<u8>,
        options: Option<WriteOptions>,
    },
    /// Remove `key`.
    Delete { target: Target, family: Option<ColumnFamily>, key: Vec<u8>, options: Option<WriteOptions> },
    /// Apply `batch` in one atomic write.
    Write { db: usize, batch: WriteBatch, options: WriteOptions },
    /// Read the entries of the source, in key order, for a cursor.
    Scan { target: Target, family: Option<ColumnFamily>, options: ReadOptions },
    /// Begin a transaction.
    Begin { db: usize, write: WriteOptions, isolation: Isolation },
    /// Commit the transaction.
    Commit { transaction: usize },
    /// Roll the transaction back.
    Rollback { transaction: usize },
    /// Create a column family.
    CreateFamily { db: usize, name: String, options: Options },
    /// Drop a column family.
    DropFamily { db: usize, family: ColumnFamily },
    /// Compact the keys between `start` and `end`.
    CompactRange { db: usize, family: Option<ColumnFamily>, start: Option<Vec<u8>>, end: Option<Vec<u8>> },
    /// Release a point-in-time marker of the database it was taken of.
    ReleaseSnapshot { source: Target, snapshot: usize },
    /// Release the handle of a column family.
    ReleaseFamily { family: ColumnFamily },
    /// Release the handle of a transaction.
    ReleaseTransaction { transaction: usize },
    /// Close the connection.
    Close { db: usize, kind: StoreKind },
    /// Destroy the unopened store at the path.
    Destroy { path: Vec<u8>, options: Options },
    /// Repair the unopened store at the path.
    Repair { path: Vec<u8>, options: Options },
}

/// The bytes of an optional key in contracts.
pub open spec fn bound_of(key: Option<Vec<u8>>) -> Option<Seq<u8>> {
    match key {
        Some(k) => Some(k@),
        None => None,
    }
}

impl View for Request {
    type V = Operation;

    open spec fn view(&self) -> Operation {
        match *self {
            Request::Get { target, family, key, options } => Operation::Get {
                target,
                family,
                key: key@,
                options: options@,
            },
            Request::Put { target, family, key, value, options } => Operation::Put {
                target,
                family,
                key: key@,
                value: value@,
                options,
            },
            Request::Merge { target, family, key, value, options } => Operation::Merge {
                target,
                family,
                key: key@,
                value: value@,
                options,
            },
            Request::Delete { target, family, key, options } => Operation::Delete {
                target,
                family,
                key: key@,
                options,
            },
            Request::Write { db, batch, options } => Operation::Write { db, batch: batch@, options },
            Request::Scan { target, family, options } => Operation::Scan { target, family, options: options@ },
            Request::Begin { db, write, isolation } => Operation::Begin { db, write, isolation },
            Request::Commit { transaction } => Operation::Commit { transaction },
            Request::Rollback { transaction } => Operation::Rollback { transaction },
            Request::CreateFamily { db, name, options } => Operation::CreateFamily { db, name: name@, options },
            Request::DropFamily { db, family } => Operation::DropFamily { db, family },
            Request::CompactRange { db, family, start, end } => Operation::CompactRange {
                db,
                family,
                start: bound_of(start),
                end: bound_of(end),
            },
            Request::ReleaseSnapshot { source, snapshot } => Operation::ReleaseSnapshot { source, snapshot },
            Request::ReleaseFamily { family } => Operation::ReleaseFamily { family },
            Request::ReleaseTransaction { transaction } => Operation::ReleaseTransaction { transaction },
            Request::Close { db, kind } => Operation::Close { db, kind },
            Request::Destroy { path, options } => Operation::Destroy { path: path@, options },
            Request::Repair { path, options } => Operation::Repair { path: path@, options },
        }
    }
}

impl Request {
    /// A read of `key` from `target`, in `family` or in the default family.
    pub fn get(target: Target, family: Option<ColumnFamily>, key: &[u8], options: &ReadOptions) -> (r: Request)
        ensures
            r@ == (Operation::Get { target, family, key: key@, options: options@ }),
    {
        Request::Get { target, family, key: slice_to_vec(key), options: options.duplicate() }
    }

    /// A put of `value` under `key`.
    pub fn put(
        target: Target,
        family: Option<ColumnFamily>,
        key: &[u8],
        value: &[u8],
        options: Option<WriteOptions>,
    ) -> (r: Request)
        ensures
            r@ == (Operation::Put { target, family, key: key@, value: value@, options }),
    {
        Request::Put { target, family, key: slice_to_vec(key), value: slice_to_vec(value), options }
    }

    /// A merge of `value` into what `key` holds.
    pub fn merge(
        target: Target,
        family: Option<ColumnFamily>,
        key: &[u8],
        value: &[u8],
        options: Option<WriteOptions>,
    ) -> (r: Request)
        ensures
            r@ == (Operation::Merge { target, family, key: key@, value: value@, options }),
    {
        Request::Merge { target, family, key: slice_to_vec(key), value: slice_to_vec(value), options }
    }

    /// A removal of `key`.
    pub fn delete(target: Target, family: Option<ColumnFamily>, key: &[u8], options: Option<WriteOptions>) -> (r:
        Request)
        ensures
            r@ == (Operation::Delete { target, family, key: key@, options }),
    {
        Request::Delete { target, family, key: slice_to_vec(key), options }
    }

    /// A read of all entries of `target`, in `family` or in the default
    /// family, for a cursor.
    pub fn scan(target: Target, family: Option<ColumnFamily>, options: &ReadOptions) -> (r: Request)
        ensures
            r@ == (Operation::Scan { target, family, options: options@ }),
    {
        Request::Scan { target, family, options: options.duplicate() }
    }

    /// A compaction of the keys from `start` to `end`; a missing bound
    /// leaves that side open.
    pub fn compact_range(db: usize, family: Option<ColumnFamily>, start: Option<&[u8]>, end: Option<&[u8]>) -> (r:
        Request)
        ensures
            r@ == (Operation::CompactRange {
                db,
                family,
                start: match start {
                    Some(k) => Some(k@),
                    None => None,
                },
                end: match end {
                    Some(k) => Some(k@),
                    None => None,
                },
            }),
    {
        let start = match start {
            Some(k) => Some(slice_to_vec(k)),
            None => None,
        };
        let end = match end {
            Some(k) => Some(slice_to_vec(k)),
            None => None,
        };
        Request::CompactRange { db, family, start, end }
    }
}

/// The engine's answer to a read.
#[derive(Debug)]
pub enum Fetched {
    /// The read options could not be constructed, so nothing was read.
    NoOptions,
    /// The engine reported a failure, with its message.
    Failed(String),
    /// The key holds nothing.
    Missing,
    /// The key holds these bytes.
    Found(Vec<u8>),
}

/// Turns the engine's answer to a read into the caller's result: the value
/// when the key holds one, nothing when it holds none, and an error, with
/// the engine's message verbatim, when the read failed.
pub fn fetched(reply: Fetched) -> (r: Result<Option<DBVector>, Error>)
    ensures
        match reply {
            Fetched::NoOptions => r is Err && r->Err_0@ == read_options_message(),
            Fetched::Failed(message) => r is Err && r->Err_0@ == message@,
            Fetched::Missing => r is Ok && r->Ok_0 is None,
            Fetched::Found(bytes) => r is Ok && r->Ok_0 is Some && r->Ok_0->Some_0@ == bytes@,
        },
{
    match reply {
        Fetched::NoOptions => Err(Error::read_options()),
        Fetched::Failed(message) => Err(Error::new(message)),
        Fetched::Missing => Ok(None),
        Fetched::Found(bytes) => Ok(Some(DBVector::from_vec(bytes))),
    }
}

} // verus!
