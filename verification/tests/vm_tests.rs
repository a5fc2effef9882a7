use consensus_apply::context::{make_apply_env, ApplyEnv};
use consensus_apply::keys::{balance_key, nonce_key, segment_key};
use consensus_apply::kv::kv_get;
use consensus_apply::mutation::Mutation;
use consensus_apply::store::KvStore;
use consensus_apply::vm::{balance, call_wasmvm};

fn vm_env(caller: &[u8], cells: &[(&[u8], &[u8])]) -> ApplyEnv {
    let mut store = KvStore::new();
    for (k, v) in cells {
        store.put(k, v);
    }
    let mut env =
        make_apply_env(store, &[1u8; 48], &[2u8; 32], 10, 9, 8, 7, &[3u8; 96], &[4u8; 32], &[5u8; 32]);
    env.caller_env.account_caller = caller.to_vec();
    env.caller_env.attached_symbol = b"stale".to_vec();
    env.caller_env.attached_amount = b"stale".to_vec();
    env
}

#[test]
fn key_layout() {
    assert_eq!(nonce_key(b"SIGNER"), b"bic:base:nonce:SIGNER".to_vec());
    assert_eq!(balance_key(b"ACCT", b"AMA"), b"bic:coin:balance:ACCTAMA".to_vec());
    assert_eq!(segment_key(), b"bic:epoch:segment_vr_hash".to_vec());
}

#[test]
fn balance_reads_the_balance_cell() {
    let env = vm_env(b"alice", &[(b"bic:coin:balance:aliceAMA", b"250"), (b"bic:coin:balance:bobAMA", b"x")]);
    assert_eq!(balance(&env, b"alice", b"AMA"), Some(250));
    assert_eq!(balance(&env, b"carol", b"AMA"), Some(0));
    assert_eq!(balance(&env, b"bob", b"AMA"), None);
}

#[test]
fn escrow_moves_the_attached_amount() {
    let mut env = vm_env(b"alice", &[(b"bic:coin:balance:aliceAMA", b"250"), (b"bic:coin:balance:vaultAMA", b"40")]);
    let r = call_wasmvm(&mut env, true, b"vault", &Some(b"AMA".to_vec()), &Some(b"100".to_vec()));
    assert_eq!(r, Ok(()));
    assert_eq!(balance(&env, b"alice", b"AMA"), Some(150));
    assert_eq!(balance(&env, b"vault", b"AMA"), Some(140));
    assert_eq!(env.caller_env.attached_symbol, b"AMA".to_vec());
    assert_eq!(env.caller_env.attached_amount, b"100".to_vec());
    assert_eq!(
        env.muts,
        vec![
            Mutation::Add { key: b"bic:coin:balance:vaultAMA".to_vec(), delta: 100 },
            Mutation::Add { key: b"bic:coin:balance:aliceAMA".to_vec(), delta: -100 },
        ]
    );
    assert_eq!(
        env.muts_rev,
        vec![
            Mutation::Add { key: b"bic:coin:balance:vaultAMA".to_vec(), delta: -100 },
            Mutation::Add { key: b"bic:coin:balance:aliceAMA".to_vec(), delta: 100 },
        ]
    );
}

#[test]
fn escrow_of_the_whole_balance() {
    let mut env = vm_env(b"alice", &[(b"bic:coin:balance:aliceAMA", b"250")]);
    let r = call_wasmvm(&mut env, true, b"vault", &Some(b"AMA".to_vec()), &Some(b"250".to_vec()));
    assert_eq!(r, Ok(()));
    assert_eq!(balance(&env, b"alice", b"AMA"), Some(0));
    assert_eq!(balance(&env, b"vault", b"AMA"), Some(250));
}

#[test]
fn escrow_needs_bytecode() {
    let mut env = vm_env(b"alice", &[(b"bic:coin:balance:aliceAMA", b"250")]);
    let r = call_wasmvm(&mut env, false, b"vault", &Some(b"AMA".to_vec()), &Some(b"100".to_vec()));
    assert_eq!(r, Err("account_has_no_bytecode"));
    assert_eq!(balance(&env, b"alice", b"AMA"), Some(250));
    assert_eq!(balance(&env, b"vault", b"AMA"), Some(0));
    assert!(env.muts.is_empty());
    assert!(env.caller_env.attached_symbol.is_empty());
    assert!(env.caller_env.attached_amount.is_empty());
}

#[test]
fn escrow_refuses_an_amount_that_is_no_positive_integer() {
    let texts: [&[u8]; 7] = [b"0", b"-5", b"abc", b"", b"1.5", b"-0", b"340282366920938463463374607431768211456"];
    for text in texts {
        let mut env = vm_env(b"alice", &[(b"bic:coin:balance:aliceAMA", b"250")]);
        let r = call_wasmvm(&mut env, true, b"vault", &Some(b"AMA".to_vec()), &Some(text.to_vec()));
        assert_eq!(r, Err("invalid_attached_amount"));
        assert_eq!(kv_get(&env, b"bic:coin:balance:aliceAMA"), Some(b"250".to_vec()));
        assert_eq!(kv_get(&env, b"bic:coin:balance:vaultAMA"), None);
        assert!(env.muts.is_empty());
        assert!(env.muts_rev.is_empty());
        assert!(env.caller_env.attached_symbol.is_empty());
    }
}

#[test]
fn escrow_refuses_what_the_balance_does_not_cover() {
    let mut env = vm_env(b"alice", &[(b"bic:coin:balance:aliceAMA", b"250")]);
    let r = call_wasmvm(&mut env, true, b"vault", &Some(b"AMA".to_vec()), &Some(b"251".to_vec()));
    assert_eq!(r, Err("attached_amount_insufficient_funds"));
    assert_eq!(kv_get(&env, b"bic:coin:balance:aliceAMA"), Some(b"250".to_vec()));
    assert_eq!(kv_get(&env, b"bic:coin:balance:vaultAMA"), None);
    assert!(env.muts.is_empty());
    let mut poor = vm_env(b"carol", &[]);
    let r = call_wasmvm(&mut poor, true, b"vault", &Some(b"AMA".to_vec()), &Some(b"1".to_vec()));
    assert_eq!(r, Err("attached_amount_insufficient_funds"));
    assert_eq!(kv_get(&poor, b"bic:coin:balance:carolAMA"), None);
}

#[test]
fn escrow_is_skipped_without_both_fields() {
    let cases: [(Option<Vec<u8>>, Option<Vec<u8>>); 3] =
        [(None, None), (Some(b"AMA".to_vec()), None), (None, Some(b"100".to_vec()))];
    for (symbol, amount) in cases {
        let mut env = vm_env(b"alice", &[(b"bic:coin:balance:aliceAMA", b"250")]);
        let r = call_wasmvm(&mut env, true, b"vault", &symbol, &amount);
        assert_eq!(r, Ok(()));
        assert_eq!(kv_get(&env, b"bic:coin:balance:aliceAMA"), Some(b"250".to_vec()));
        assert_eq!(kv_get(&env, b"bic:coin:balance:vaultAMA"), None);
        assert!(env.muts.is_empty());
        assert!(env.caller_env.attached_symbol.is_empty());
        assert!(env.caller_env.attached_amount.is_empty());
    }
}

#[test]
fn escrow_fails_where_the_contract_balance_cannot_take_it() {
    let max = i128::MAX.to_string();
    let mut env = vm_env(
        b"alice",
        &[(b"bic:coin:balance:aliceAMA", b"250"), (b"bic:coin:balance:vaultAMA", max.as_bytes())],
    );
    let r = call_wasmvm(&mut env, true, b"vault", &Some(b"AMA".to_vec()), &Some(b"1".to_vec()));
    assert_eq!(r, Err("unknown"));
    assert_eq!(kv_get(&env, b"bic:coin:balance:aliceAMA"), Some(b"250".to_vec()));
    assert!(env.muts.is_empty());
}

#[test]
fn escrow_to_oneself_leaves_the_balance() {
    let mut env = vm_env(b"alice", &[(b"bic:coin:balance:aliceAMA", b"250")]);
    let r = call_wasmvm(&mut env, true, b"alice", &Some(b"AMA".to_vec()), &Some(b"100".to_vec()));
    assert_eq!(r, Ok(()));
    assert_eq!(balance(&env, b"alice", b"AMA"), Some(250));
    assert_eq!(env.muts.len(), 2);
}
