//! Transactions: isolated units of work, each in one of three states.

use vstd::prelude::*;
use crate::column_family::ColumnFamily;
use crate::error::{inactive_message, unbegun_message, Error};
use crate::iterator::{
    ascending, entries_of, first_position, DBIterator, DBRawIterator, Direction, IteratorMode, KVBytes,
};
use crate::options::{plain_read, ReadOptions};
use crate::request::{Isolation, Operation, Request, Target};

verus! {

/// Where a transaction stands in its life.
#[derive(Clone, Copy, Debug, PartialEq, Eq, Structural)]
pub enum TransactionState {
    /// Begun and not yet finished: reads and writes are accepted.
    Active,
    /// Finished by a commit that the engine accepted.
    Committed,
    /// Finished by a rollback that the engine accepted.
    RolledBack,
}

/// A unit of work bound to one database. It is `Active` from its beginning
/// until the engine accepts its commit or its rollback, and accepts reads
/// and writes only while it is.
///
/// Beginning a transaction never fails: where the engine could not begin
/// one and handed back a null handle, the first use reports it.
///
/// A pessimistic transaction that is neither committed nor rolled back
/// keeps the locks it took until it expires, if it ever does: to finish
/// every transaction is the caller's obligation.
#[derive(Debug)]
pub struct Transaction {
    inner: usize,
    state: TransactionState,
    isolation: Isolation,
}

impl Transaction {
    /// The handle of the transaction.
    pub closed spec fn handle(&self) -> usize {
        self.inner
    }

    /// The handle of the transaction, for the driver.
    pub fn inner(&self) -> (h: usize)
        ensures
            h == self.handle(),
    {
        self.inner
    }

    /// The state of the transaction.
    pub closed spec fn status(&self) -> TransactionState {
        self.state
    }

    /// How the transaction guards against concurrent writers, with the
    /// options it was begun with.
    pub closed spec fn configuration(&self) -> Isolation {
        self.isolation
    }

    /// Whether the engine began the transaction.
    pub open spec fn begun(&self) -> bool {
        self.handle() != 0
    }

    /// Whether the transaction accepts reads and writes.
    pub open spec fn active(&self) -> bool {
        self.status() == TransactionState::Active
    }

    /// What becomes of a request made of the transaction: it is refused
    /// when the engine never began the transaction, goes out while the
    /// transaction is active, and is refused once it is finished.
    pub open spec fn asks(&self, r: Result<Request, Error>, operation: Operation) -> bool {
        if !self.begun() {
            r is Err && r->Err_0@ == unbegun_message()
        } else if self.active() {
            r is Ok && r->Ok_0@ == operation
        } else {
            r is Err && r->Err_0@ == inactive_message()
        }
    }

    /// What the engine's answer to a commit or a rollback makes of the
    /// transaction: it moves to `finished` when the engine accepted, and
    /// stays active, with the engine's message as the error, when it did
    /// not. A transaction that was never begun, or is no longer active, is
    /// refused and stays as it was.
    pub open spec fn finishes(
        before: Transaction,
        after: Transaction,
        signal: Option<String>,
        r: Result<(), Error>,
        finished: TransactionState,
    ) -> bool {
        &&& after.handle() == before.handle()
        &&& after.configuration() == before.configuration()
        &&& if !before.begun() {
            r is Err && r->Err_0@ == unbegun_message() && after.status() == before.status()
        } else if !before.active() {
            r is Err && r->Err_0@ == inactive_message() && after.status() == before.status()
        } else {
            match signal {
                None => r is Ok && after.status() == finished,
                Some(message) => r is Err && r->Err_0@ == message@ && after.active(),
            }
        }
    }

    /// The transaction that the engine began under `handle`, with the
    /// options it was begun with. A null handle is accepted here and
    /// reported at the first use.
    pub fn new(handle: usize, isolation: Isolation) -> (t: Transaction)
        ensures
            t.handle() == handle,
            t.configuration() == isolation,
            t.active(),
    {
        Transaction { inner: handle, state: TransactionState::Active, isolation }
    }

    /// How the transaction guards against concurrent writers, with the
    /// options it was begun with.
    pub fn isolation(&self) -> (i: Isolation)
        ensures
            i == self.configuration(),
    {
        self.isolation
    }

    /// The state of the transaction.
    pub fn state(&self) -> (s: TransactionState)
        ensures
            s == self.status(),
    {
        self.state
    }

    fn guard(&self, request: Request) -> (r: Result<Request, Error>)
        ensures
            self.asks(r, request@),
    {
        if self.inner == 0 {
            return Err(Error::unbegun());
        }
        match self.state {
            TransactionState::Active => Ok(request),
            _ => Err(Error::inactive()),
        }
    }

    /// The put of `value` under `key` within the transaction.
    pub fn put(&self, key: &[u8], value: &[u8]) -> (r: Result<Request, Error>)
        ensures
            self.asks(
                r,
                Operation::Put {
                    target: Target::Transaction(self.handle()),
                    family: None,
                    key: key@,
                    value: value@,
                    options: None,
                },
            ),
    {
        self.guard(Request::put(Target::Transaction(self.inner), None, key, value, None))
    }

    /// The put of `value` under `key` in the family `cf` within the
    /// transaction.
    pub fn put_cf(&self, cf: ColumnFamily, key: &[u8], value: &[u8]) -> (r: Result<Request, Error>)
        ensures
            self.asks(
                r,
                Operation::Put {
                    target: Target::Transaction(self.handle()),
                    family: Some(cf),
                    key: key@,
                    value: value@,
                    options: None,
                },
            ),
    {
        self.guard(Request::put(Target::Transaction(self.inner), Some(cf), key, value, None))
    }

    /// The merge of `value` into what `key` holds, within the transaction.
    pub fn merge(&self, key: &[u8], value: &[u8]) -> (r: Result<Request, Error>)
        ensures
            self.asks(
                r,
                Operation::Merge {
                    target: Target::Transaction(self.handle()),
                    family: None,
                    key: key@,
                    value: value@,
                    options: None,
                },
            ),
    {
        self.guard(Request::merge(Target::Transaction(self.inner), None, key, value, None))
    }

    /// The merge of `value` into what `key` holds in the family `cf`,
    /// within the transaction.
    pub fn merge_cf(&self, cf: ColumnFamily, key: &[u8], value: &[u8]) -> (r: Result<Request, Error>)
        ensures
            self.asks(
                r,
                Operation::Merge {
                    target: Target::Transaction(self.handle()),
                    family: Some(cf),
                    key: key@,
                    value: value@,
                    options: None,
                },
            ),
    {
        self.guard(Request::merge(Target::Transaction(self.inner), Some(cf), key, value, None))
    }

    /// The removal of `key` within the transaction.
    pub fn delete(&self, key: &[u8]) -> (r: Result<Request, Error>)
        ensures
            self.asks(
                r,
                Operation::Delete {
                    target: Target::Transaction(self.handle()),
                    family: None,
                    key: key@,
                    options: None,
                },
            ),
    {
        self.guard(Request::delete(Target::Transaction(self.inner), None, key, None))
    }

    /// The removal of `key` from the family `cf` within the transaction.
    pub fn delete_cf(&self, cf: ColumnFamily, key: &[u8]) -> (r: Result<Request, Error>)
        ensures
            self.asks(
                r,
                Operation::Delete {
                    target: Target::Transaction(self.handle()),
                    family: Some(cf),
                    key: key@,
                    options: None,
                },
            ),
    {
        self.guard(Request::delete(Target::Transaction(self.inner), Some(cf), key, None))
    }

    /// The read of `key` as the transaction sees it.
    pub fn get(&self, key: &[u8]) -> (r: Result<Request, Error>)
        ensures
            self.asks(
                r,
                Operation::Get {
                    target: Target::Transaction(self.handle()),
                    family: None,
                    key: key@,
                    options: plain_read(),
                },
            ),
    {
        let opts = ReadOptions::default();
        self.get_opt(key, &opts)
    }

    /// The read of `key` as the transaction sees it, with the given
    /// options.
    pub fn get_opt(&self, key: &[u8], read_opts: &ReadOptions) -> (r: Result<Request, Error>)
        ensures
            self.asks(
                r,
                Operation::Get {
                    target: Target::Transaction(self.handle()),
                    family: None,
                    key: key@,
                    options: read_opts@,
                },
            ),
    {
        self.guard(Request::get(Target::Transaction(self.inner), None, key, read_opts))
    }

    /// The read of `key` in the family `cf` as the transaction sees it.
    pub fn get_cf(&self, cf: ColumnFamily, key: &[u8]) -> (r: Result<Request, Error>)
        ensures
            self.asks(
                r,
                Operation::Get {
                    target: Target::Transaction(self.handle()),
                    family: Some(cf),
                    key: key@,
                    options: plain_read(),
                },
            ),
    {
        let opts = ReadOptions::default();
        self.get_cf_opt(key, cf, &opts)
    }

    /// The read of `key` in the family `cf` as the transaction sees it,
    /// with the given options.
    pub fn get_cf_opt(&self, key: &[u8], cf: ColumnFamily, read_opts: &ReadOptions) -> (r: Result<
        Request,
        Error,
    >)
        ensures
            self.asks(
                r,
                Operation::Get {
                    target: Target::Transaction(self.handle()),
                    family: Some(cf),
                    key: key@,
                    options: read_opts@,
                },
            ),
    {
        self.guard(Request::get(Target::Transaction(self.inner), Some(cf), key, read_opts))
    }

    /// The read of all entries as the transaction sees them, for a cursor.
    pub fn scan(&self, opts: &ReadOptions) -> (r: Result<Request, Error>)
        ensures
            self.asks(
                r,
                Operation::Scan { target: Target::Transaction(self.handle()), family: None, options: opts@ },
            ),
    {
        self.guard(Request::scan(Target::Transaction(self.inner), None, opts))
    }

    /// The read of all entries of the family `cf` as the transaction sees
    /// them, for a cursor.
    pub fn scan_cf(&self, cf: ColumnFamily, opts: &ReadOptions) -> (r: Result<Request, Error>)
        ensures
            self.asks(
                r,
                Operation::Scan { target: Target::Transaction(self.handle()), family: Some(cf), options: opts@ },
            ),
    {
        self.guard(Request::scan(Target::Transaction(self.inner), Some(cf), opts))
    }

    /// A forward traversal, from the first key, over the entries that a
    /// scan of the transaction returned.
    pub fn iterator(&self, entries: Vec<KVBytes>) -> (r: Option<DBIterator>)
        ensures
            r is Some <==> ascending(entries_of(entries@)),
            r is Some ==> {
                &&& r->Some_0.entries() == entries_of(entries@)
                &&& r->Some_0.positioned()
                &&& r->Some_0.direction() == Direction::Forward
                &&& r->Some_0.cursor() == first_position(entries_of(entries@))
            },
    {
        DBIterator::over(entries, IteratorMode::Start)
    }

    /// A cursor over the entries that a scan of the transaction returned.
    pub fn raw_iterator(&self, entries: Vec<KVBytes>) -> (r: Option<DBRawIterator>)
        ensures
            r is Some <==> ascending(entries_of(entries@)),
            r is Some ==> r->Some_0.entries() == entries_of(entries@) && r->Some_0.cursor() is None,
    {
        DBRawIterator::new(entries)
    }

    /// The commit of the transaction.
    pub fn commit(&self) -> (r: Result<Request, Error>)
        ensures
            self.asks(r, Operation::Commit { transaction: self.handle() }),
    {
        self.guard(Request::Commit { transaction: self.inner })
    }

    /// Takes the engine's answer to a commit: the transaction is committed
    /// when the engine accepted, and stays active, with the engine's
    /// message as the error, when it did not, as when another writer
    /// changed a key underneath it.
    pub fn committed(&mut self, signal: Option<String>) -> (r: Result<(), Error>)
        ensures
            Transaction::finishes(*old(self), *final(self), signal, r, TransactionState::Committed),
    {
        self.finish(signal, TransactionState::Committed)
    }

    /// The rollback of the transaction.
    pub fn rollback(&self) -> (r: Result<Request, Error>)
        ensures
            self.asks(r, Operation::Rollback { transaction: self.handle() }),
    {
        self.guard(Request::Rollback { transaction: self.inner })
    }

    /// Takes the engine's answer to a rollback: the transaction is rolled
    /// back when the engine accepted, and stays active, with the engine's
    /// message as the error, when it did not.
    pub fn rolled_back(&mut self, signal: Option<String>) -> (r: Result<(), Error>)
        ensures
            Transaction::finishes(*old(self), *final(self), signal, r, TransactionState::RolledBack),
    {
        self.finish(signal, TransactionState::RolledBack)
    }

    fn finish(&mut self, signal: Option<String>, finished: TransactionState) -> (r: Result<(), Error>)
        ensures
            Transaction::finishes(*old(self), *final(self), signal, r, finished),
    {
        if self.inner == 0 {
            return Err(Error::unbegun());
        }
        match self.state {
            TransactionState::Active => match signal {
                None => {
                    self.state = finished;
                    Ok(())
                },
                Some(message) => Err(Error::new(message)),
            },
            _ => Err(Error::inactive()),
        }
    }

    /// Gives up the transaction and says what to release: its handle,
    /// unless the engine never began it. The transaction is consumed: it
    /// cannot be released twice, nor used afterwards.
    pub fn release(self) -> (r: Option<Request>)
        ensures
            self.begun() ==> r is Some && r->Some_0@ == (Operation::ReleaseTransaction {
                transaction: self.handle(),
            }),
            !self.begun() ==> r is None,
    {
        if self.inner == 0 {
            None
        } else {
            Some(Request::ReleaseTransaction { transaction: self.inner })
        }
    }
}

} // verus!
