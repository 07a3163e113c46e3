use exonum_rocksdb::iterator::{DBIterator, DBRawIterator, Direction, IteratorMode, KVBytes};

fn entries(pairs: &[(&str, &str)]) -> Vec<KVBytes> {
    pairs
        .iter()
        .map(|(k, v)| (k.as_bytes().to_vec(), v.as_bytes().to_vec()))
        .collect()
}

fn keys(items: &[KVBytes]) -> Vec<String> {
    items
        .iter()
        .map(|(k, _)| String::from_utf8(k.clone()).unwrap())
        .collect()
}

fn three() -> Vec<KVBytes> {
    entries(&[("k1", "v1111"), ("k2", "v2222"), ("k3", "v3333")])
}

#[test]
fn raw_cursor_is_not_valid_until_positioned() {
    let raw = DBRawIterator::new(three()).unwrap();
    assert!(!raw.valid());
    assert_eq!(raw.key(), None);
    assert_eq!(raw.value(), None);
    assert!(raw.key_inner().is_none());
    assert!(raw.value_inner().is_none());
}

#[test]
fn raw_cursor_refuses_entries_out_of_order() {
    assert!(DBRawIterator::new(entries(&[("b", "1"), ("a", "2")])).is_none());
    assert!(DBRawIterator::new(entries(&[("a", "1"), ("a", "2")])).is_none());
    assert!(DBRawIterator::new(entries(&[("a", "1"), ("ab", "2")])).is_some());
    assert!(DBRawIterator::new(Vec::new()).is_some());
}

#[test]
fn raw_cursor_walks_forward() {
    let mut raw = DBRawIterator::new(three()).unwrap();
    raw.seek_to_first();
    assert!(raw.valid());
    assert_eq!(raw.key(), Some(b"k1".to_vec()));
    assert_eq!(raw.value(), Some(b"v1111".to_vec()));
    raw.next();
    assert_eq!(raw.key(), Some(b"k2".to_vec()));
    raw.next();
    assert_eq!(raw.key_inner(), Some(&b"k3"[..]));
    assert_eq!(raw.value_inner(), Some(&b"v3333"[..]));
    raw.next();
    assert!(!raw.valid());
    raw.next();
    assert!(!raw.valid());
    raw.prev();
    assert!(!raw.valid());
}

#[test]
fn raw_cursor_walks_backward() {
    let mut raw = DBRawIterator::new(three()).unwrap();
    raw.seek_to_last();
    assert_eq!(raw.key(), Some(b"k3".to_vec()));
    raw.prev();
    assert_eq!(raw.key(), Some(b"k2".to_vec()));
    raw.prev();
    assert_eq!(raw.key(), Some(b"k1".to_vec()));
    raw.prev();
    assert!(!raw.valid());
    assert_eq!(raw.key(), None);
}

#[test]
fn raw_cursor_seeks_to_first_key_at_or_after() {
    let mut raw = DBRawIterator::new(three()).unwrap();
    raw.seek(b"k2");
    assert_eq!(raw.key(), Some(b"k2".to_vec()));
    raw.seek(b"k11");
    assert_eq!(raw.key(), Some(b"k2".to_vec()));
    raw.seek(b"");
    assert_eq!(raw.key(), Some(b"k1".to_vec()));
    raw.seek(b"k");
    assert_eq!(raw.key(), Some(b"k1".to_vec()));
    raw.seek(b"k3");
    assert_eq!(raw.key(), Some(b"k3".to_vec()));
    raw.seek(b"k30");
    assert!(!raw.valid());
    raw.seek(b"z");
    assert!(!raw.valid());
}

#[test]
fn raw_cursor_on_nothing_is_never_valid() {
    let mut raw = DBRawIterator::new(Vec::new()).unwrap();
    raw.seek_to_first();
    assert!(!raw.valid());
    raw.seek_to_last();
    assert!(!raw.valid());
    raw.seek(b"a");
    assert!(!raw.valid());
}

#[test]
fn start_yields_keys_in_increasing_order() {
    let it = DBIterator::over(three(), IteratorMode::Start).unwrap();
    assert!(it.valid());
    let got = it.collect();
    assert_eq!(keys(&got), vec!["k1", "k2", "k3"]);
    assert_eq!(got[0].1, b"v1111".to_vec());
    assert_eq!(got[2].1, b"v3333".to_vec());
}

#[test]
fn end_yields_keys_in_decreasing_order() {
    let it = DBIterator::over(three(), IteratorMode::End).unwrap();
    assert_eq!(keys(&it.collect()), vec!["k3", "k2", "k1"]);
}

#[test]
fn from_forward_starts_at_first_key_at_or_after() {
    let it = DBIterator::over(three(), IteratorMode::From(b"k2", Direction::Forward)).unwrap();
    assert_eq!(keys(&it.collect()), vec!["k2", "k3"]);
    let it = DBIterator::over(three(), IteratorMode::From(b"k11", Direction::Forward)).unwrap();
    assert_eq!(keys(&it.collect()), vec!["k2", "k3"]);
    let it = DBIterator::over(three(), IteratorMode::From(b"k4", Direction::Forward)).unwrap();
    assert_eq!(it.count(), 0);
}

#[test]
fn from_reverse_starts_at_first_key_at_or_after() {
    let it = DBIterator::over(three(), IteratorMode::From(b"k2", Direction::Reverse)).unwrap();
    assert_eq!(keys(&it.collect()), vec!["k2", "k1"]);
    let it = DBIterator::over(three(), IteratorMode::From(b"k11", Direction::Reverse)).unwrap();
    assert_eq!(keys(&it.collect()), vec!["k2", "k1"]);
    let it = DBIterator::over(three(), IteratorMode::From(b"k4", Direction::Reverse)).unwrap();
    assert!(!it.valid());
    assert_eq!(it.count(), 0);
}

#[test]
fn first_yield_after_positioning_is_the_landed_entry() {
    let mut it = DBIterator::over(three(), IteratorMode::From(b"k2", Direction::Forward)).unwrap();
    assert_eq!(it.next(), Some((b"k2".to_vec(), b"v2222".to_vec())));
    assert_eq!(it.next(), Some((b"k3".to_vec(), b"v3333".to_vec())));
    assert_eq!(it.next(), None);
    assert_eq!(it.next(), None);
    assert!(!it.valid());
}

#[test]
fn set_mode_restarts_the_traversal() {
    let mut it = DBIterator::over(three(), IteratorMode::Start).unwrap();
    assert_eq!(it.next().unwrap().0, b"k1".to_vec());
    assert_eq!(it.next().unwrap().0, b"k2".to_vec());
    it.set_mode(IteratorMode::From(b"k3", Direction::Reverse));
    assert_eq!(it.next().unwrap().0, b"k3".to_vec());
    assert_eq!(it.next().unwrap().0, b"k2".to_vec());
    it.set_mode(IteratorMode::End);
    assert_eq!(keys(&it.collect()), vec!["k3", "k2", "k1"]);
}

#[test]
fn traversal_of_nothing_ends_at_once() {
    let mut it = DBIterator::over(Vec::new(), IteratorMode::Start).unwrap();
    assert!(!it.valid());
    assert_eq!(it.next(), None);
    let it = DBIterator::over(Vec::new(), IteratorMode::End).unwrap();
    assert_eq!(it.count(), 0);
}

#[test]
fn traversal_refuses_entries_out_of_order() {
    assert!(DBIterator::over(entries(&[("k2", "a"), ("k1", "b")]), IteratorMode::Start).is_none());
}

#[test]
fn count_is_what_is_left() {
    let mut it = DBIterator::over(three(), IteratorMode::Start).unwrap();
    let _ = it.next();
    assert_eq!(it.count(), 2);
    assert_eq!(DBIterator::over(three(), IteratorMode::Start).unwrap().count(), 3);
}

#[test]
fn into_hands_the_cursor_back_where_it_stands() {
    let mut it = DBIterator::over(three(), IteratorMode::Start).unwrap();
    let _ = it.next();
    let _ = it.next();
    let raw = it.into();
    assert_eq!(raw.key(), Some(b"k2".to_vec()));
    let raw = DBIterator::new(DBRawIterator::new(three()).unwrap(), IteratorMode::End).into();
    assert_eq!(raw.key(), Some(b"k3".to_vec()));
}

#[test]
fn keys_are_ordered_byte_by_byte() {
    let data: Vec<KVBytes> = vec![
        (vec![], vec![0]),
        (vec![0], vec![1]),
        (vec![0, 0], vec![2]),
        (vec![0, 255], vec![3]),
        (vec![1], vec![4]),
        (vec![255], vec![5]),
    ];
    let it = DBIterator::over(data.clone(), IteratorMode::Start).unwrap();
    assert_eq!(it.collect(), data);
    let mut raw = DBRawIterator::new(data).unwrap();
    raw.seek(&[0, 1]);
    assert_eq!(raw.key(), Some(vec![0, 255]));
    raw.seek(&[0, 255, 0]);
    assert_eq!(raw.key(), Some(vec![1]));
}
