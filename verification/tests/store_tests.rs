use consensus_apply::mutation::{apply_mutation, read_number, undo_log, Mutation};
use consensus_apply::store::KvStore;

#[test]
fn store_starts_empty() {
    let store = KvStore::new();
    assert_eq!(store.get(b"a"), None);
    assert_eq!(store.get(b""), None);
}

#[test]
fn store_put_then_get() {
    let mut store = KvStore::new();
    store.put(b"a", b"1");
    store.put(b"b", b"2");
    assert_eq!(store.get(b"a"), Some(b"1".to_vec()));
    assert_eq!(store.get(b"b"), Some(b"2".to_vec()));
    assert_eq!(store.get(b"c"), None);
}

#[test]
fn store_put_replaces() {
    let mut store = KvStore::new();
    store.put(b"a", b"1");
    store.put(b"b", b"2");
    store.put(b"a", b"3");
    assert_eq!(store.get(b"a"), Some(b"3".to_vec()));
    assert_eq!(store.get(b"b"), Some(b"2".to_vec()));
}

#[test]
fn store_delete_removes_only_its_key() {
    let mut store = KvStore::new();
    store.put(b"a", b"1");
    store.put(b"b", b"2");
    store.put(b"c", b"3");
    store.delete(b"b");
    store.delete(b"missing");
    assert_eq!(store.get(b"a"), Some(b"1".to_vec()));
    assert_eq!(store.get(b"b"), None);
    assert_eq!(store.get(b"c"), Some(b"3".to_vec()));
}

#[test]
fn store_keys_are_whole_byte_strings() {
    let mut store = KvStore::new();
    store.put(b"ab", b"1");
    assert_eq!(store.get(b"a"), None);
    assert_eq!(store.get(b"abc"), None);
    store.put(b"", b"empty");
    assert_eq!(store.get(b""), Some(b"empty".to_vec()));
}

#[test]
fn cell_number_of_missing_cell_is_zero() {
    let store = KvStore::new();
    assert_eq!(read_number(&store, b"n"), Some(0));
}

#[test]
fn cell_number_reads_decimal_text() {
    let mut store = KvStore::new();
    store.put(b"n", b"-15");
    store.put(b"t", b"abc");
    assert_eq!(read_number(&store, b"n"), Some(-15));
    assert_eq!(read_number(&store, b"t"), None);
}

#[test]
fn mutation_put_delete_add() {
    let mut store = KvStore::new();
    apply_mutation(&mut store, &Mutation::Put { key: b"k".to_vec(), value: b"v".to_vec() });
    assert_eq!(store.get(b"k"), Some(b"v".to_vec()));
    apply_mutation(&mut store, &Mutation::Delete { key: b"k".to_vec() });
    assert_eq!(store.get(b"k"), None);
    apply_mutation(&mut store, &Mutation::Add { key: b"n".to_vec(), delta: 40 });
    apply_mutation(&mut store, &Mutation::Add { key: b"n".to_vec(), delta: 2 });
    assert_eq!(store.get(b"n"), Some(b"42".to_vec()));
    apply_mutation(&mut store, &Mutation::Add { key: b"n".to_vec(), delta: -50 });
    assert_eq!(store.get(b"n"), Some(b"-8".to_vec()));
}

#[test]
fn mutation_add_leaves_what_it_cannot_add_to() {
    let mut store = KvStore::new();
    store.put(b"t", b"abc");
    apply_mutation(&mut store, &Mutation::Add { key: b"t".to_vec(), delta: 1 });
    assert_eq!(store.get(b"t"), Some(b"abc".to_vec()));
    store.put(b"m", i128::MAX.to_string().as_bytes());
    apply_mutation(&mut store, &Mutation::Add { key: b"m".to_vec(), delta: 1 });
    assert_eq!(store.get(b"m"), Some(i128::MAX.to_string().into_bytes()));
}

#[test]
fn undo_log_runs_newest_first() {
    let mut store = KvStore::new();
    store.put(b"k", b"new");
    let rev = vec![
        Mutation::Delete { key: b"k".to_vec() },
        Mutation::Put { key: b"k".to_vec(), value: b"mid".to_vec() },
    ];
    undo_log(&mut store, &rev);
    assert_eq!(store.get(b"k"), None);
    let mut other = KvStore::new();
    let rev2 = vec![
        Mutation::Put { key: b"k".to_vec(), value: b"first".to_vec() },
        Mutation::Delete { key: b"k".to_vec() },
    ];
    undo_log(&mut other, &rev2);
    assert_eq!(other.get(b"k"), Some(b"first".to_vec()));
}
