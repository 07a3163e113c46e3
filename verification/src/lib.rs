//! A lifecycle and ownership layer for a transactional key-value storage
//! engine.
//!
//! The engine itself (persistence, locking, compaction) is an outside
//! collaborator. This crate holds everything the layer decides on its own:
//! which engine operation a call stands for, how the engine's answer becomes
//! a typed result, the column-family registry, staged write batches, the
//! transaction life cycle and the directional cursor. A driver performs the
//! operations against the engine and hands the answers back as plain values.

pub mod bytes;
pub mod column_family;
pub mod db;
pub mod db_vector;
pub mod error;
pub mod iterator;
pub mod open;
pub mod optimistic_txn_db;
pub mod options;
pub mod request;
pub mod transaction;
pub mod transaction_db;
pub mod utils;
pub mod write_batch;

pub use crate::column_family::ColumnFamily;
pub use crate::db::{Snapshot, DB};
pub use crate::db_vector::DBVector;
pub use crate::error::Error;
pub use crate::iterator::{DBIterator, DBRawIterator, Direction, IteratorMode, KVBytes};
pub use crate::optimistic_txn_db::OptimisticTransactionDB;
pub use crate::options::{
    DBCompactionStyle, DBCompressionType, DBRecoveryMode, Inner, OptimisticTransactionOptions, Options,
    ReadOptions, TransactionDBOptions, TransactionOptions, WriteOptions,
};
pub use crate::request::{Request, Target};
pub use crate::transaction::Transaction;
pub use crate::transaction_db::TransactionDB;
pub use crate::write_batch::WriteBatch;
