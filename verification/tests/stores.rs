use exonum_rocksdb::column_family::{same_text, ColumnFamilyRegistry};
use exonum_rocksdb::db::Created;
use exonum_rocksdb::open::{connect, plan, Opened};
use exonum_rocksdb::request::{Isolation, StoreKind};
use exonum_rocksdb::transaction::TransactionState;
use exonum_rocksdb::{
    ColumnFamily, Inner, OptimisticTransactionDB, OptimisticTransactionOptions, Options, ReadOptions,
    Request, Target, Transaction, TransactionDB, TransactionDBOptions, TransactionOptions,
    WriteBatch, WriteOptions, DB,
};

fn begun(handle: usize) -> Transaction {
    Transaction::new(handle, Isolation::Optimistic(OptimisticTransactionOptions::default()))
}

fn cf(inner: usize) -> ColumnFamily {
    ColumnFamily { inner }
}

fn plain_db(handle: usize) -> DB {
    let request = DB::open_default("store").unwrap();
    DB::opened(request, Opened::Connected { db: handle, families: Vec::new() }).unwrap()
}

fn db_with(names: &[&str], handles: &[usize]) -> DB {
    let request = DB::open_cf(&Options::default(), "store", names).unwrap();
    DB::opened(request, Opened::Connected { db: 1, families: handles.to_vec() }).unwrap()
}

#[test]
fn registry_maps_names_to_handles() {
    let mut r = ColumnFamilyRegistry::new();
    assert_eq!(r.len(), 0);
    assert_eq!(r.get("cf1"), None);
    assert_eq!(r.insert("cf1", cf(11)), None);
    assert_eq!(r.insert("cf2", cf(22)), None);
    assert_eq!(r.len(), 2);
    assert_eq!(r.get("cf1"), Some(cf(11)));
    assert_eq!(r.get("cf2"), Some(cf(22)));
    assert_eq!(r.get("cf"), None);
    assert_eq!(r.insert("cf1", cf(33)), Some(cf(11)));
    assert_eq!(r.len(), 2);
    assert_eq!(r.get("cf1"), Some(cf(33)));
    assert_eq!(r.remove("cf1"), Some(cf(33)));
    assert_eq!(r.remove("cf1"), None);
    assert_eq!(r.get("cf1"), None);
    assert_eq!(r.get("cf2"), Some(cf(22)));
    assert_eq!(r.len(), 1);
    assert_eq!(r.handles(), vec![cf(22)]);
}

#[test]
fn names_are_compared_as_text() {
    assert!(same_text("default", "default"));
    assert!(!same_text("default", "Default"));
    assert!(!same_text("cf", "cf1"));
    assert!(same_text("", ""));
}

#[test]
fn plain_open_asks_for_no_families() {
    let request = DB::open(&Options::default(), "/tmp/store").unwrap();
    assert_eq!(request.directory, "/tmp/store");
    assert_eq!(request.path, b"/tmp/store\0".to_vec());
    assert!(request.families.is_empty());
    assert!(!request.options.create_if_missing);
    assert!(request.create_directory);
    assert!(request.locks.is_none());
}

#[test]
fn default_open_creates_a_missing_store() {
    let request = DB::open_default("store").unwrap();
    assert!(request.options.create_if_missing);
    assert!(!request.options.statistics);
    assert!(request.families.is_empty());
}

#[test]
fn open_with_families_adds_the_default_family() {
    let request = DB::open_cf(&Options::default(), "store", &["cf1", "cf2"]).unwrap();
    assert_eq!(request.families, vec!["cf1", "cf2", "default"]);
    let request = DB::open_cf(&Options::default(), "store", &["cf1", "default", "cf2"]).unwrap();
    assert_eq!(request.families, vec!["cf1", "default", "cf2"]);
    let request = DB::open_cf(&Options::default(), "store", &["default"]).unwrap();
    assert_eq!(request.families, vec!["default"]);
    let request = DB::open_cf(&Options::default(), "store", &[]).unwrap();
    assert!(request.families.is_empty());
}

#[test]
fn open_refuses_what_cannot_be_encoded() {
    let e = DB::open_default("sto\0re").unwrap_err();
    assert_eq!(e.to_string(), "Failed to convert path to CString when opening DB.");
    let e = DB::open_cf(&Options::default(), "store", &["cf1", "c\0f"]).unwrap_err();
    assert_eq!(e.to_string(), "Failed to convert path to CString when opening DB.");
    assert!(plan(&Options::default(), "a\0", &[], false, None).is_err());
}

#[test]
fn opened_store_knows_its_path_and_families() {
    let db = db_with(&["cf1", "cf2"], &[11, 22, 33]);
    assert_eq!(db.path(), "store");
    assert_eq!(db.cf_handle("cf1"), Some(cf(11)));
    assert_eq!(db.cf_handle("cf2"), Some(cf(22)));
    assert_eq!(db.cf_handle("default"), Some(cf(33)));
    assert_eq!(db.cf_handle("cf3"), None);
}

#[test]
fn family_named_twice_keeps_the_later_handle() {
    let db = db_with(&["cf1", "cf1"], &[11, 22, 33]);
    assert_eq!(db.cf_handle("cf1"), Some(cf(22)));
    assert_eq!(db.cf_handle("default"), Some(cf(33)));
}

#[test]
fn opening_fails_as_the_engine_answers() {
    let request = DB::open_default("store").unwrap();
    let e = DB::opened(request, Opened::NoDirectory("Os { code: 13 }".to_string())).unwrap_err();
    assert_eq!(e.to_string(), "Failed to create RocksDB directory: `Os { code: 13 }`.");

    let request = DB::open_default("store").unwrap();
    let e = DB::opened(request, Opened::Failed("IO error: lock store/LOCK: busy".to_string())).unwrap_err();
    assert_eq!(e.to_string(), "IO error: lock store/LOCK: busy");

    let request = DB::open_default("store").unwrap();
    let e = DB::opened(request, Opened::Connected { db: 0, families: Vec::new() }).unwrap_err();
    assert_eq!(e.to_string(), "Could not initialize database.");
}

#[test]
fn null_family_handle_fails_the_open() {
    let request = DB::open_cf(&Options::default(), "store", &["cf1"]).unwrap();
    let e = DB::opened(request, Opened::Connected { db: 1, families: vec![11, 0] }).unwrap_err();
    assert_eq!(e.to_string(), "Received null column family handle from DB.");

    let request = DB::open_cf(&Options::default(), "store", &["cf1"]).unwrap();
    let e = DB::opened(request, Opened::Connected { db: 0, families: vec![0, 5] }).unwrap_err();
    assert_eq!(e.to_string(), "Received null column family handle from DB.");

    let request = DB::open_cf(&Options::default(), "store", &["cf1"]).unwrap();
    let e = DB::opened(request, Opened::Connected { db: 1, families: vec![11] }).unwrap_err();
    assert_eq!(e.to_string(), "Received null column family handle from DB.");

    let request = plan(&Options::default(), "store", &["cf1"], true, None).unwrap();
    assert!(connect(request, Opened::Connected { db: 1, families: vec![11, 12] }).is_ok());
}

#[test]
fn created_family_is_registered() {
    let mut db = plain_db(1);
    let request = db.create_cf("cf1", &Options::default()).unwrap();
    assert!(matches!(&request, Request::CreateFamily { db: 1, name, .. } if name == "cf1"));
    assert_eq!(db.created_cf("cf1", Created::Handle(11)).unwrap(), cf(11));
    assert_eq!(db.cf_handle("cf1"), Some(cf(11)));
}

#[test]
fn family_that_was_not_created_is_not_registered() {
    let mut db = plain_db(1);
    let e = db.created_cf("cf1", Created::Failed("Invalid argument: exists".to_string())).unwrap_err();
    assert_eq!(e.to_string(), "Invalid argument: exists");
    assert_eq!(db.cf_handle("cf1"), None);
    let e = db.created_cf("cf1", Created::Handle(0)).unwrap_err();
    assert_eq!(e.to_string(), "Received null column family handle from DB.");
    assert_eq!(db.cf_handle("cf1"), None);
    let e = db.create_cf("c\0f", &Options::default()).unwrap_err();
    assert_eq!(e.to_string(), "Failed to convert path to CString when opening rocksdb");
}

#[test]
fn dropped_family_is_no_longer_found() {
    let mut db = db_with(&["cf1"], &[11, 33]);
    let request = db.drop_cf("cf1").unwrap();
    assert!(matches!(request, Request::DropFamily { db: 1, family } if family == cf(11)));
    assert_eq!(db.cf_handle("cf1"), None);
    assert_eq!(db.cf_handle("default"), Some(cf(33)));
    let e = db.drop_cf("cf1").unwrap_err();
    assert_eq!(e.to_string(), "Invalid column family: cf1");
}

#[test]
fn dropping_an_unknown_family_is_an_error() {
    let mut db = plain_db(1);
    let e = db.drop_cf("nope").unwrap_err();
    assert_eq!(e.to_string(), "Invalid column family: nope");
}

#[test]
fn closing_releases_families_before_the_connection() {
    let db = db_with(&["cf1"], &[11, 33]);
    let requests = db.close();
    assert_eq!(requests.len(), 3);
    let mut released = Vec::new();
    for r in &requests[..2] {
        match r {
            Request::ReleaseFamily { family } => released.push(family.inner),
            other => panic!("unexpected {:?}", other),
        }
    }
    released.sort();
    assert_eq!(released, vec![11, 33]);
    assert!(matches!(requests[2], Request::Close { db: 1, kind: StoreKind::Plain }));
    let requests = plain_db(9).close();
    assert_eq!(requests.len(), 1);
    assert!(matches!(requests[0], Request::Close { db: 9, kind: StoreKind::Plain }));
}

#[test]
fn reads_say_what_to_read() {
    let db = db_with(&["cf1", "cf2"], &[11, 2, 33]);
    match db.get(b"k1") {
        Request::Get { target: Target::Database(1), family: None, key, options } => {
            assert_eq!(key, b"k1".to_vec());
            assert_eq!(options.snapshot(), None);
            assert_eq!(options.iterate_upper_bound(), None);
            assert_eq!(options.cache_fill(), None);
        }
        other => panic!("unexpected {:?}", other),
    }
    match db.get_cf(cf(11), b"k1").unwrap() {
        Request::Get { target: Target::Database(1), family, key, .. } => {
            assert_eq!(family, Some(cf(11)));
            assert_eq!(key, b"k1".to_vec());
        }
        other => panic!("unexpected {:?}", other),
    }
    let mut opts = ReadOptions::default();
    opts.set_iterate_upper_bound(b"k9");
    opts.fill_cache(false);
    match db.get_opt(b"k2", &opts) {
        Request::Get { options, .. } => {
            assert_eq!(options.iterate_upper_bound(), Some(&b"k9"[..]));
            assert_eq!(options.cache_fill(), Some(false));
        }
        other => panic!("unexpected {:?}", other),
    }
    assert!(matches!(db.get_cf_opt(cf(2), b"k", &opts), Ok(Request::Get { family: Some(f), .. }) if f == cf(2)));
}

#[test]
fn writes_say_what_to_write() {
    let db = db_with(&["cf1"], &[3, 33]);
    match db.put(b"k1", b"v1111") {
        Request::Put { target: Target::Database(1), family: None, key, value, options } => {
            assert_eq!(key, b"k1".to_vec());
            assert_eq!(value, b"v1111".to_vec());
            let options = options.unwrap();
            assert!(!options.sync);
            assert!(!options.disable_wal);
        }
        other => panic!("unexpected {:?}", other),
    }
    let mut sync = WriteOptions::default();
    sync.set_sync(true);
    assert!(matches!(
        db.put_opt(b"k", b"v", &sync),
        Request::Put { options: Some(WriteOptions { sync: true, disable_wal: false }), .. }
    ));
    assert!(matches!(db.put_cf(cf(3), b"k", b"v"), Ok(Request::Put { family: Some(f), .. }) if f == cf(3)));
    assert!(matches!(db.put_cf_opt(cf(3), b"k", b"v", &sync), Ok(Request::Put { family: Some(_), options: Some(o), .. }) if o.sync));
    assert!(matches!(db.merge(b"k", b"v"), Request::Merge { family: None, key, value, .. } if key == b"k" && value == b"v"));
    assert!(matches!(db.merge_opt(b"k", b"v", &sync), Request::Merge { options: Some(o), .. } if o.sync));
    assert!(matches!(db.merge_cf(cf(3), b"k", b"v"), Ok(Request::Merge { family: Some(f), .. }) if f == cf(3)));
    assert!(matches!(db.merge_cf_opt(cf(3), b"k", b"v", &sync), Ok(Request::Merge { family: Some(_), options: Some(o), .. }) if o.sync));
    assert!(matches!(db.delete(b"k"), Request::Delete { target: Target::Database(1), family: None, key, .. } if key == b"k"));
    assert!(matches!(db.delete_opt(b"k", &sync), Request::Delete { options: Some(o), .. } if o.sync));
    assert!(matches!(db.delete_cf(cf(3), b"k"), Ok(Request::Delete { family: Some(f), .. }) if f == cf(3)));
    assert!(matches!(db.delete_cf_opt(cf(3), b"k", &sync), Ok(Request::Delete { family: Some(_), options: Some(o), .. }) if o.sync));
}

#[test]
fn batch_write_carries_the_batch() {
    let db = plain_db(4);
    let mut batch = WriteBatch::default();
    let _ = batch.put(b"k1", b"v1");
    let _ = batch.delete(b"k2");
    match db.write(batch).unwrap() {
        Request::Write { db: 4, batch, options } => {
            assert_eq!(batch.len(), 2);
            assert!(!options.sync && !options.disable_wal);
        }
        other => panic!("unexpected {:?}", other),
    }
    assert!(matches!(
        db.write_without_wal(WriteBatch::default()),
        Ok(Request::Write { options: WriteOptions { sync: false, disable_wal: true }, .. })
    ));
    let mut sync = WriteOptions::new();
    sync.set_sync(true);
    assert!(matches!(db.write_opt(WriteBatch::default(), &sync), Ok(Request::Write { options, .. }) if options.sync));
}

#[test]
fn compaction_says_its_range() {
    let db = db_with(&["cf1"], &[3, 33]);
    assert!(matches!(
        db.compact_range(Some(b"a"), None),
        Request::CompactRange { db: 1, family: None, start: Some(s), end: None } if s == b"a"
    ));
    assert!(matches!(
        db.compact_range_cf(cf(3), None, Some(b"z")),
        Ok(Request::CompactRange { family: Some(f), start: None, end: Some(e), .. }) if f == cf(3) && e == b"z"
    ));
}

#[test]
fn destroy_and_repair_encode_the_path() {
    assert!(matches!(DB::destroy(&Options::default(), "store"), Ok(Request::Destroy { path, .. }) if path == b"store\0"));
    assert!(matches!(DB::repair(Options::default(), "store"), Ok(Request::Repair { path, .. }) if path == b"store\0"));
    assert!(DB::destroy(&Options::default(), "st\0re").is_err());
    assert!(DB::repair(Options::default(), "st\0re").is_err());
    assert!(TransactionDB::destroy(&Options::default(), "st\0re").is_err());
    assert!(matches!(TransactionDB::repair(Options::default(), "s"), Ok(Request::Repair { .. })));
    assert!(matches!(OptimisticTransactionDB::destroy(&Options::default(), "s"), Ok(Request::Destroy { .. })));
}

#[test]
fn snapshot_reads_are_pinned() {
    let db = DB::opened(
        DB::open_cf(&Options::default(), "store", &["cf1"]).unwrap(),
        Opened::Connected { db: 4, families: vec![3, 33] },
    )
    .unwrap();
    let snap = db.snapshot(77).unwrap();
    assert_eq!(snap.get_inner(), 77);
    match snap.get(b"k1") {
        Request::Get { target: Target::Database(4), family: None, key, options } => {
            assert_eq!(key, b"k1".to_vec());
            assert_eq!(options.snapshot(), Some(77));
        }
        other => panic!("unexpected {:?}", other),
    }
    assert!(matches!(snap.get_cf(cf(3), b"k"), Ok(Request::Get { family: Some(f), options, .. }) if f == cf(3) && options.snapshot() == Some(77)));
    assert_eq!(snap.get_cf(cf(4), b"k").unwrap_err().to_string(), "Invalid column family handle.");
    assert!(snap.scan_cf(cf(4)).is_err());
    assert!(matches!(snap.scan(), Request::Scan { target: Target::Database(4), family: None, options } if options.snapshot() == Some(77)));
    assert!(matches!(snap.scan_cf(cf(3)), Ok(Request::Scan { family: Some(_), options, .. }) if options.snapshot() == Some(77)));
    assert!(matches!(db.scan(), Request::Scan { family: None, options, .. } if options.snapshot().is_none()));
    assert!(matches!(db.scan_cf(cf(3)), Ok(Request::Scan { family: Some(_), options, .. }) if options.snapshot().is_none()));
    assert!(matches!(snap.release(), Request::ReleaseSnapshot { source: Target::Database(4), snapshot: 77 }));
}

#[test]
fn transaction_is_active_until_finished() {
    let mut txn = begun(8);
    assert_eq!(txn.state(), TransactionState::Active);
    assert!(matches!(txn.put(b"key1", b"value1"), Ok(Request::Put { target: Target::Transaction(8), family: None, options: None, .. })));
    assert!(matches!(txn.get(b"key1"), Ok(Request::Get { target: Target::Transaction(8), .. })));
    assert!(matches!(txn.delete(b"key1"), Ok(Request::Delete { target: Target::Transaction(8), .. })));
    assert!(matches!(txn.merge(b"key1", b"x"), Ok(Request::Merge { .. })));
    assert!(matches!(txn.put_cf(cf(3), b"a", b"1"), Ok(Request::Put { family: Some(_), .. })));
    assert!(matches!(txn.merge_cf(cf(3), b"a", b"1"), Ok(Request::Merge { family: Some(_), .. })));
    assert!(matches!(txn.delete_cf(cf(3), b"a"), Ok(Request::Delete { family: Some(_), .. })));
    assert!(matches!(txn.get_cf(cf(3), b"a"), Ok(Request::Get { family: Some(_), .. })));
    assert!(matches!(txn.scan(&ReadOptions::default()), Ok(Request::Scan { target: Target::Transaction(8), family: None, .. })));
    assert!(matches!(txn.scan_cf(cf(3), &ReadOptions::default()), Ok(Request::Scan { family: Some(_), .. })));
    assert!(matches!(txn.commit(), Ok(Request::Commit { transaction: 8 })));
    assert!(txn.committed(None).is_ok());
    assert_eq!(txn.state(), TransactionState::Committed);
    assert_eq!(txn.put(b"key1", b"value1").unwrap_err().to_string(), "Transaction is not active.");
    assert!(txn.get(b"key1").is_err());
    assert!(txn.delete(b"key1").is_err());
    assert!(txn.commit().is_err());
    assert!(txn.rollback().is_err());
    assert!(txn.committed(None).is_err());
    assert!(txn.rolled_back(None).is_err());
    assert_eq!(txn.state(), TransactionState::Committed);
    assert!(matches!(txn.release(), Some(Request::ReleaseTransaction { transaction: 8 })));
}

#[test]
fn failed_commit_leaves_the_transaction_active() {
    let mut txn = begun(8);
    let e = txn.committed(Some("Resource busy: ".to_string())).unwrap_err();
    assert_eq!(e.to_string(), "Resource busy: ");
    assert_eq!(txn.state(), TransactionState::Active);
    assert!(txn.rollback().is_ok());
    let e = txn.rolled_back(Some("IO error".to_string())).unwrap_err();
    assert_eq!(e.to_string(), "IO error");
    assert_eq!(txn.state(), TransactionState::Active);
    assert!(txn.rolled_back(None).is_ok());
    assert_eq!(txn.state(), TransactionState::RolledBack);
    assert!(txn.put(b"k", b"v").is_err());
}

#[test]
fn pessimistic_store_opens_with_lock_options() {
    let mut locks = TransactionDBOptions::default();
    locks.set_max_num_locks(10);
    locks.set_num_stripes(4);
    locks.set_transaction_lock_timeout(100);
    locks.set_default_lock_timeout(200);
    let request = TransactionDB::open(&Options::default(), &locks, "store").unwrap();
    let got = request.locks.unwrap();
    assert_eq!(got.max_num_locks, Some(10));
    assert_eq!(got.num_stripes, Some(4));
    assert_eq!(got.transaction_lock_timeout, Some(100));
    assert_eq!(got.default_lock_timeout, Some(200));
    assert!(request.create_directory);
    let db = TransactionDB::opened(request, Opened::Connected { db: 5, families: Vec::new() }).unwrap();
    assert!(matches!(db.get(b"k"), Request::Get { target: Target::TransactionDatabase(5), .. }));
    assert!(matches!(db.put(b"k", b"v"), Request::Put { target: Target::TransactionDatabase(5), .. }));
    let mut txn_opts = TransactionOptions::default();
    txn_opts.set_deadlock_detect(true);
    txn_opts.set_snapshot(true);
    txn_opts.set_expiration(5);
    txn_opts.set_lock_timeout(7);
    txn_opts.set_deadlock_detect_depth(9);
    txn_opts.set_max_write_batch_size(1024);
    let mut w_opts = WriteOptions::default();
    w_opts.set_sync(true);
    match db.transaction_begin(&w_opts, &txn_opts) {
        Request::Begin { db: 5, write, isolation: Isolation::Pessimistic(o) } => {
            assert!(write.sync);
            assert_eq!(o.set_snapshot, Some(true));
            assert_eq!(o.deadlock_detect, Some(true));
            assert_eq!(o.expiration, Some(5));
            assert_eq!(o.lock_timeout, Some(7));
            assert_eq!(o.deadlock_detect_depth, Some(9));
            assert_eq!(o.max_write_batch_size, Some(1024));
        }
        other => panic!("unexpected {:?}", other),
    }
    let snap = db.snapshot(70).unwrap();
    assert!(matches!(snap.get(b"k"), Request::Get { target: Target::TransactionDatabase(5), options, .. } if options.snapshot() == Some(70)));
    assert!(matches!(snap.reader(), Request::Begin { db: 5, isolation: Isolation::Pessimistic(o), .. } if o.set_snapshot.is_none()));
    let reader = begun(6);
    assert!(matches!(snap.scan(&reader), Ok(Request::Scan { target: Target::Transaction(6), options, .. }) if options.snapshot() == Some(70)));
    assert!(matches!(snap.release(), Request::ReleaseSnapshot { source: Target::TransactionDatabase(5), snapshot: 70 }));
    assert!(matches!(db.close(), Request::Close { db: 5, kind: StoreKind::Pessimistic }));
    assert!(TransactionDB::open_default("store").unwrap().options.create_if_missing);
    let request = TransactionDB::open_default("store").unwrap();
    assert!(TransactionDB::opened(request, Opened::Connected { db: 0, families: Vec::new() }).is_err());
}

#[test]
fn optimistic_store_reads_snapshots_through_a_pinning_transaction() {
    let request = OptimisticTransactionDB::open_cf(&Options::default(), "store", &["cf1"]).unwrap();
    assert!(!request.create_directory);
    assert_eq!(request.families, vec!["cf1", "default"]);
    let mut db = OptimisticTransactionDB::opened(request, Opened::Connected { db: 5, families: vec![11, 12] }, 50).unwrap();
    assert_eq!(db.cf_handle("cf1"), Some(cf(11)));
    assert!(matches!(db.create_cf("cf2", &Options::default()), Ok(Request::CreateFamily { db: 50, .. })));
    assert_eq!(db.created_cf("cf2", Created::Handle(13)).unwrap(), cf(13));
    assert_eq!(db.cf_handle("cf2"), Some(cf(13)));
    assert!(db.created_cf("cf3", Created::Handle(0)).is_err());
    assert!(db.create_cf("c\0", &Options::default()).is_err());
    assert!(matches!(db.drop_cf("cf2"), Ok(Request::DropFamily { db: 50, family }) if family == cf(13)));
    assert_eq!(db.drop_cf("cf2").unwrap_err().to_string(), "Invalid column family: cf2");
    let mut txn_opts = OptimisticTransactionOptions::default();
    assert!(matches!(db.transaction_begin(&WriteOptions::default(), &txn_opts), Request::Begin { db: 5, isolation: Isolation::Optimistic(o), .. } if o.set_snapshot.is_none()));
    txn_opts.set_snapshot(true);
    assert!(matches!(db.transaction_begin(&WriteOptions::default(), &txn_opts), Request::Begin { isolation: Isolation::Optimistic(o), .. } if o.set_snapshot == Some(true)));
    {
        let snap = db.snapshot(70).unwrap();
        assert!(matches!(snap.reader(), Request::Begin { db: 5, isolation: Isolation::Optimistic(o), .. } if o.set_snapshot == Some(true)));
        let reader = begun(6);
        assert!(matches!(snap.get(&reader, b"a"), Ok(Request::Get { target: Target::Transaction(6), family: None, options, .. }) if options.snapshot() == Some(70)));
        assert!(matches!(snap.get_cf(&reader, cf(11), b"a"), Ok(Request::Get { family: Some(_), options, .. }) if options.snapshot() == Some(70)));
        assert!(matches!(snap.scan(&reader), Ok(Request::Scan { family: None, options, .. }) if options.snapshot() == Some(70)));
        assert!(matches!(snap.scan_cf(&reader, cf(11)), Ok(Request::Scan { family: Some(_), options, .. }) if options.snapshot() == Some(70)));
        assert!(matches!(snap.release(), Request::ReleaseSnapshot { source: Target::Database(50), snapshot: 70 }));
    }
    let requests = db.close();
    assert_eq!(requests.len(), 4);
    assert!(matches!(requests[2], Request::Close { db: 50, kind: StoreKind::OptimisticBase }));
    assert!(matches!(requests[3], Request::Close { db: 5, kind: StoreKind::Optimistic }));
    assert!(OptimisticTransactionDB::open_default("s").unwrap().options.create_if_missing);
    assert!(OptimisticTransactionDB::open(&Options::default(), "s").unwrap().families.is_empty());
}

#[test]
fn open_options_record_what_was_asked() {
    let mut opts = Options::default();
    assert!(!opts.create_if_missing);
    opts.create_if_missing(true);
    opts.enable_statistics();
    opts.set_stats_dump_period_sec(2);
    assert!(opts.create_if_missing);
    assert!(opts.statistics);
    assert_eq!(opts.stats_dump_period_sec, Some(2));
    let mut r = ReadOptions::default();
    r.set_snapshot(&plain_db(1).snapshot(9).unwrap());
    let copy = r.duplicate();
    assert_eq!(copy.snapshot(), Some(9));
}

#[test]
fn dropped_family_handle_is_refused() {
    let mut db = db_with(&["cf1"], &[11, 33]);
    let cf1 = db.cf_handle("cf1").unwrap();
    assert!(db.has_family(cf1));
    assert!(db.put_cf(cf1, b"k", b"v").is_ok());
    assert!(db.drop_cf("cf1").is_ok());
    assert!(!db.has_family(cf1));
    let e = db.put_cf(cf1, b"k", b"v").unwrap_err();
    assert_eq!(e.to_string(), "Invalid column family handle.");
    assert!(db.get_cf(cf1, b"k").is_err());
    assert!(db.get_cf_opt(cf1, b"k", &ReadOptions::default()).is_err());
    assert!(db.merge_cf(cf1, b"k", b"v").is_err());
    assert!(db.delete_cf(cf1, b"k").is_err());
    assert!(db.put_cf_opt(cf1, b"k", b"v", &WriteOptions::default()).is_err());
    assert!(db.merge_cf_opt(cf1, b"k", b"v", &WriteOptions::default()).is_err());
    assert!(db.delete_cf_opt(cf1, b"k", &WriteOptions::default()).is_err());
    assert!(db.scan_cf(cf1).is_err());
    assert!(db.compact_range_cf(cf1, None, None).is_err());
    assert!(db.get_cf(cf(33), b"k").is_ok());
    assert!(matches!(db.get(b"k"), Request::Get { family: None, .. }));
}

#[test]
fn unknown_family_handle_is_refused() {
    let db = plain_db(1);
    assert!(!db.has_family(cf(5)));
    assert_eq!(db.get_cf(cf(5), b"k").unwrap_err().to_string(), "Invalid column family handle.");
    assert!(!db.has_family(cf(0)));
}

#[test]
fn batch_that_names_a_dropped_family_is_refused() {
    let mut db = db_with(&["cf1"], &[11, 33]);
    let cf1 = db.cf_handle("cf1").unwrap();
    let mut batch = WriteBatch::default();
    let _ = batch.put(b"k1", b"v1");
    let _ = batch.put_cf(cf1, b"k2", b"v2");
    assert!(batch.within(&{
        let mut r = ColumnFamilyRegistry::new();
        r.insert("cf1", cf1);
        r
    }));
    assert!(!batch.within(&ColumnFamilyRegistry::new()));
    assert!(db.drop_cf("cf1").is_ok());
    let e = db.write(batch).unwrap_err();
    assert_eq!(e.to_string(), "Invalid column family handle.");
    let mut batch = WriteBatch::default();
    let _ = batch.delete_cf(cf(33), b"k");
    let _ = batch.merge(b"k", b"v");
    assert!(db.write(batch).is_ok());
    assert!(db.write(WriteBatch::default()).is_ok());
    let mut batch = WriteBatch::default();
    let _ = batch.merge_cf(cf1, b"k", b"v");
    assert!(db.write_without_wal(batch).is_err());
}

#[test]
fn optimistic_store_knows_its_families() {
    let request = OptimisticTransactionDB::open_cf(&Options::default(), "store", &["cf1"]).unwrap();
    let mut db =
        OptimisticTransactionDB::opened(request, Opened::Connected { db: 5, families: vec![11, 12] }, 50).unwrap();
    assert!(db.has_family(cf(11)));
    assert!(db.has_family(cf(12)));
    assert!(!db.has_family(cf(13)));
    assert!(db.drop_cf("cf1").is_ok());
    assert!(!db.has_family(cf(11)));
    let snap = db.snapshot(70).unwrap();
    let reader = begun(6);
    assert_eq!(
        snap.get_cf(&reader, cf(11), b"a").unwrap_err().to_string(),
        "Invalid column family handle."
    );
    assert!(snap.scan_cf(&reader, cf(11)).is_err());
    assert!(snap.get_cf(&reader, cf(12), b"a").is_ok());
}

#[test]
fn transaction_that_was_not_begun_reports_it_at_first_use() {
    let mut locking = TransactionOptions::default();
    locking.set_lock_timeout(3);
    let mut txn = Transaction::new(0, Isolation::Pessimistic(locking));
    assert_eq!(txn.state(), TransactionState::Active);
    assert!(matches!(txn.isolation(), Isolation::Pessimistic(o) if o.lock_timeout == Some(3)));
    assert_eq!(txn.put(b"k", b"v").unwrap_err().to_string(), "Could not begin transaction.");
    assert_eq!(txn.get(b"k").unwrap_err().to_string(), "Could not begin transaction.");
    assert!(txn.delete(b"k").is_err());
    assert!(txn.scan(&ReadOptions::default()).is_err());
    assert_eq!(txn.commit().unwrap_err().to_string(), "Could not begin transaction.");
    assert_eq!(txn.committed(None).unwrap_err().to_string(), "Could not begin transaction.");
    assert!(txn.rollback().is_err());
    assert!(txn.rolled_back(None).is_err());
    assert_eq!(txn.state(), TransactionState::Active);
    assert!(txn.release().is_none());
}

#[test]
fn null_marker_makes_no_snapshot() {
    let db = plain_db(1);
    assert_eq!(db.snapshot(0).unwrap_err().to_string(), "Could not create snapshot.");
    assert!(db.snapshot(1).is_ok());
    let request = TransactionDB::open_default("store").unwrap();
    let db = TransactionDB::opened(request, Opened::Connected { db: 5, families: Vec::new() }).unwrap();
    assert!(db.snapshot(0).is_err());
    let request = OptimisticTransactionDB::open_default("store").unwrap();
    let db = OptimisticTransactionDB::opened(request, Opened::Connected { db: 5, families: Vec::new() }, 6).unwrap();
    assert!(db.snapshot(0).is_err());
    assert_eq!(db.snapshot(3).unwrap().get_inner(), 3);
}
