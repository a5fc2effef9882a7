use consensus_apply::context::{make_apply_env, make_caller_env, set_apply_env_tx, ApplyEnv};
use consensus_apply::kv::{kv_get, kv_increment, kv_increment_gas, kv_put, revert, KvError};
use consensus_apply::mutation::Mutation;
use consensus_apply::store::KvStore;

fn kv_fresh_env(store: KvStore) -> ApplyEnv {
    make_apply_env(store, &[1u8; 48], &[2u8; 32], 10, 9, 8, 7, &[3u8; 96], &[4u8; 32], &[5u8; 32])
}

#[test]
fn caller_env_starts_with_safe_defaults() {
    let env = make_caller_env(&[1u8; 48], &[2u8; 32], 10, 9, 8, 7, &[3u8; 96], &[4u8; 32], &[5u8; 32]);
    assert!(!env.readonly);
    assert!(env.seed.is_empty());
    assert_eq!(f64::from_bits(env.seedf64_bits), 1.0);
    assert_eq!(env.entry_signer, [1u8; 48]);
    assert_eq!(env.entry_prev_hash, [2u8; 32]);
    assert_eq!(env.entry_slot, 10);
    assert_eq!(env.entry_prev_slot, 9);
    assert_eq!(env.entry_height, 8);
    assert_eq!(env.entry_epoch, 7);
    assert_eq!(env.entry_vr, [3u8; 96]);
    assert_eq!(env.entry_vr_b3, [4u8; 32]);
    assert_eq!(env.entry_dr, [5u8; 32]);
    assert_eq!(env.tx_index, 0);
    assert_eq!(env.tx_signer, [0u8; 48]);
    assert_eq!(env.tx_nonce, 0);
    assert_eq!(env.tx_hash, [0u8; 32]);
    assert!(env.account_origin.is_empty());
    assert!(env.account_caller.is_empty());
    assert!(env.account_current.is_empty());
    assert!(env.attached_symbol.is_empty());
    assert!(env.attached_amount.is_empty());
    assert_eq!(env.call_counter, 0);
    assert_eq!(env.call_exec_points, 10_000_000);
    assert_eq!(env.call_exec_points_remaining, 10_000_000);
}

#[test]
fn apply_env_starts_with_empty_buffers() {
    let mut store = KvStore::new();
    store.put(b"k", b"v");
    let env = kv_fresh_env(store);
    assert!(env.muts.is_empty());
    assert!(env.muts_rev.is_empty());
    assert!(env.muts_gas.is_empty());
    assert!(env.muts_rev_gas.is_empty());
    assert!(env.muts_final.is_empty());
    assert!(env.muts_final_rev.is_empty());
    assert!(env.result_log.is_empty());
    assert_eq!(env.caller_env.entry_epoch, 7);
    assert_eq!(kv_get(&env, b"k"), Some(b"v".to_vec()));
}

#[test]
fn set_tx_touches_only_the_transaction_fields() {
    let mut env = kv_fresh_env(KvStore::new());
    set_apply_env_tx(&mut env, &[9u8; 32], &[8u8; 48], 77);
    assert_eq!(env.caller_env.tx_hash, [9u8; 32]);
    assert_eq!(env.caller_env.tx_signer, [8u8; 48]);
    assert_eq!(env.caller_env.tx_nonce, 77);
    assert_eq!(env.caller_env.account_origin, vec![8u8; 48]);
    assert!(env.caller_env.account_caller.is_empty());
    assert_eq!(env.caller_env.tx_index, 0);
    assert_eq!(env.caller_env.entry_slot, 10);
    assert!(env.muts.is_empty());
    assert!(env.muts_rev.is_empty());
    assert!(env.muts_final.is_empty());
    assert_eq!(kv_get(&env, b"anything"), None);
}

#[test]
fn put_journals_the_write_and_the_removal_of_a_new_key() {
    let mut env = kv_fresh_env(KvStore::new());
    kv_put(&mut env, b"k", b"v");
    assert_eq!(kv_get(&env, b"k"), Some(b"v".to_vec()));
    assert_eq!(env.muts, vec![Mutation::Put { key: b"k".to_vec(), value: b"v".to_vec() }]);
    assert_eq!(env.muts_rev, vec![Mutation::Delete { key: b"k".to_vec() }]);
    assert!(env.muts_gas.is_empty());
    assert!(env.muts_final.is_empty());
}

#[test]
fn put_journals_the_previous_value_of_an_old_key() {
    let mut store = KvStore::new();
    store.put(b"k", b"old");
    let mut env = kv_fresh_env(store);
    kv_put(&mut env, b"k", b"new");
    assert_eq!(kv_get(&env, b"k"), Some(b"new".to_vec()));
    assert_eq!(env.muts, vec![Mutation::Put { key: b"k".to_vec(), value: b"new".to_vec() }]);
    assert_eq!(env.muts_rev, vec![Mutation::Put { key: b"k".to_vec(), value: b"old".to_vec() }]);
}

#[test]
fn increment_counts_a_missing_cell_as_zero() {
    let mut env = kv_fresh_env(KvStore::new());
    assert_eq!(kv_increment(&mut env, b"n", 5), Ok(5));
    assert_eq!(kv_get(&env, b"n"), Some(b"5".to_vec()));
    assert_eq!(env.muts, vec![Mutation::Add { key: b"n".to_vec(), delta: 5 }]);
    assert_eq!(env.muts_rev, vec![Mutation::Add { key: b"n".to_vec(), delta: -5 }]);
}

#[test]
fn increment_adds_to_the_number_in_the_cell() {
    let mut store = KvStore::new();
    store.put(b"n", b"100");
    let mut env = kv_fresh_env(store);
    assert_eq!(kv_increment(&mut env, b"n", -30), Ok(70));
    assert_eq!(kv_increment(&mut env, b"n", -80), Ok(-10));
    assert_eq!(kv_get(&env, b"n"), Some(b"-10".to_vec()));
    assert_eq!(
        env.muts_rev,
        vec![
            Mutation::Add { key: b"n".to_vec(), delta: 30 },
            Mutation::Add { key: b"n".to_vec(), delta: 80 },
        ]
    );
}

#[test]
fn increment_refuses_a_cell_without_a_number() {
    let mut store = KvStore::new();
    store.put(b"t", b"abc");
    let mut env = kv_fresh_env(store);
    assert_eq!(kv_increment(&mut env, b"t", 1), Err(KvError::NotANumber));
    assert_eq!(kv_get(&env, b"t"), Some(b"abc".to_vec()));
    assert!(env.muts.is_empty());
    assert!(env.muts_rev.is_empty());
}

#[test]
fn increment_refuses_to_leave_the_range() {
    let mut store = KvStore::new();
    store.put(b"m", i128::MAX.to_string().as_bytes());
    let mut env = kv_fresh_env(store);
    assert_eq!(kv_increment(&mut env, b"m", 1), Err(KvError::OutOfRange));
    assert_eq!(kv_increment(&mut env, b"zero", i128::MIN), Err(KvError::OutOfRange));
    assert_eq!(kv_get(&env, b"m"), Some(i128::MAX.to_string().into_bytes()));
    assert_eq!(kv_get(&env, b"zero"), None);
    assert!(env.muts.is_empty());
    assert_eq!(kv_increment(&mut env, b"m", -1), Ok(i128::MAX - 1));
}

#[test]
fn gas_increment_uses_the_gas_journal() {
    let mut store = KvStore::new();
    store.put(b"n", b"100");
    let mut env = kv_fresh_env(store);
    assert_eq!(kv_increment_gas(&mut env, b"n", -3), Ok(97));
    assert!(env.muts.is_empty());
    assert!(env.muts_rev.is_empty());
    assert_eq!(env.muts_gas, vec![Mutation::Add { key: b"n".to_vec(), delta: -3 }]);
    assert_eq!(env.muts_rev_gas, vec![Mutation::Add { key: b"n".to_vec(), delta: 3 }]);
    assert_eq!(kv_increment_gas(&mut env, b"t", i128::MIN), Err(KvError::OutOfRange));
    assert_eq!(env.muts_gas.len(), 1);
}

#[test]
fn revert_of_nothing_changes_nothing() {
    let mut store = KvStore::new();
    store.put(b"k", b"v");
    store.put(b"n", b"12");
    let mut env = kv_fresh_env(store);
    revert(&mut env);
    assert_eq!(kv_get(&env, b"k"), Some(b"v".to_vec()));
    assert_eq!(kv_get(&env, b"n"), Some(b"12".to_vec()));
    assert_eq!(kv_get(&env, b"x"), None);
    assert!(env.muts.is_empty());
    assert!(env.muts_rev.is_empty());
    assert!(env.muts_final.is_empty());
    assert!(env.result_log.is_empty());
}

#[test]
fn revert_undoes_puts_exactly() {
    let mut store = KvStore::new();
    store.put(b"k", b"old");
    let mut env = kv_fresh_env(store);
    kv_put(&mut env, b"k", b"mid");
    kv_put(&mut env, b"fresh", b"1");
    kv_put(&mut env, b"k", b"new");
    revert(&mut env);
    assert_eq!(kv_get(&env, b"k"), Some(b"old".to_vec()));
    assert_eq!(kv_get(&env, b"fresh"), None);
    assert_eq!(env.muts.len(), 3);
    assert_eq!(env.muts_rev.len(), 3);
}

#[test]
fn revert_undoes_increments() {
    let mut store = KvStore::new();
    store.put(b"a", b"1000");
    store.put(b"b", b"5");
    let mut env = kv_fresh_env(store);
    assert_eq!(kv_increment(&mut env, b"a", -300), Ok(700));
    assert_eq!(kv_increment(&mut env, b"b", 300), Ok(305));
    kv_put(&mut env, b"b", b"11");
    assert_eq!(kv_increment(&mut env, b"b", 1), Ok(12));
    revert(&mut env);
    assert_eq!(kv_get(&env, b"a"), Some(b"1000".to_vec()));
    assert_eq!(kv_get(&env, b"b"), Some(b"5".to_vec()));
}

#[test]
fn revert_of_an_increment_on_a_missing_cell_leaves_zero() {
    let mut env = kv_fresh_env(KvStore::new());
    assert_eq!(kv_increment(&mut env, b"n", 9), Ok(9));
    revert(&mut env);
    assert_eq!(kv_get(&env, b"n"), Some(b"0".to_vec()));
}

#[test]
fn revert_leaves_gas_writes_on_other_cells() {
    let mut store = KvStore::new();
    store.put(b"fee", b"50");
    let mut env = kv_fresh_env(store);
    kv_put(&mut env, b"k", b"v");
    assert_eq!(kv_increment_gas(&mut env, b"fee", -7), Ok(43));
    revert(&mut env);
    assert_eq!(kv_get(&env, b"k"), None);
    assert_eq!(kv_get(&env, b"fee"), Some(b"43".to_vec()));
}

#[test]
fn revert_after_a_put_gives_back_a_missing_cell() {
    let mut env = kv_fresh_env(KvStore::new());
    kv_put(&mut env, b"n", b"007");
    assert_eq!(kv_increment(&mut env, b"n", 3), Ok(10));
    assert_eq!(kv_get(&env, b"n"), Some(b"10".to_vec()));
    revert(&mut env);
    assert_eq!(kv_get(&env, b"n"), None);
}

#[test]
fn revert_of_an_increment_rewrites_text_that_was_not_canonical() {
    let mut store = KvStore::new();
    store.put(b"n", b"+007");
    let mut env = kv_fresh_env(store);
    assert_eq!(kv_increment(&mut env, b"n", 3), Ok(10));
    revert(&mut env);
    assert_eq!(kv_get(&env, b"n"), Some(b"7".to_vec()));
}

#[test]
fn revert_takes_a_gas_increment_along_with_a_put_on_its_cell() {
    let mut store = KvStore::new();
    store.put(b"n", b"5");
    let mut env = kv_fresh_env(store);
    kv_put(&mut env, b"n", b"100");
    assert_eq!(kv_increment_gas(&mut env, b"n", -1), Ok(99));
    revert(&mut env);
    assert_eq!(kv_get(&env, b"n"), Some(b"5".to_vec()));
    assert_eq!(env.muts_gas.len(), 1);
}
