use consensus_apply::context::{make_apply_env, ApplyEnv};
use consensus_apply::exit::{call_exit, record_segment_digest};
use consensus_apply::kv::{kv_get, kv_put};
use consensus_apply::mutation::Mutation;
use consensus_apply::pipeline::commit_journal;
use consensus_apply::store::KvStore;

fn exit_env(height: u64, vr: &[u8; 96]) -> ApplyEnv {
    let mut env =
        make_apply_env(KvStore::new(), &[1u8; 48], &[2u8; 32], 10, 9, height, 7, vr, &[4u8; 32], &[5u8; 32]);
    kv_put(&mut env, b"left over", b"x");
    env
}

#[test]
fn exit_records_the_digest_at_a_segment_height() {
    let mut vr = [0u8; 96];
    for (i, b) in vr.iter_mut().enumerate() {
        *b = i as u8;
    }
    let mut env = exit_env(5000, &vr);
    assert!(!call_exit(&mut env));
    let digest = blake3::hash(&vr);
    assert_eq!(kv_get(&env, b"bic:epoch:segment_vr_hash"), Some(digest.as_bytes().to_vec()));
    assert_ne!(kv_get(&env, b"bic:epoch:segment_vr_hash"), Some(vr[..32].to_vec()));
    assert_eq!(
        env.muts,
        vec![Mutation::Put {
            key: b"bic:epoch:segment_vr_hash".to_vec(),
            value: digest.as_bytes().to_vec()
        }]
    );
    assert_eq!(env.muts_rev, vec![Mutation::Delete { key: b"bic:epoch:segment_vr_hash".to_vec() }]);
    commit_journal(&mut env);
    assert_eq!(env.muts_final.len(), 1);
    assert_eq!(env.muts_final_rev.len(), 1);
    assert!(env.muts.is_empty());
    assert!(env.muts_rev.is_empty());
}

#[test]
fn exit_digest_is_blake3() {
    let mut env = exit_env(0, &[0u8; 96]);
    assert!(!call_exit(&mut env));
    let stored = kv_get(&env, b"bic:epoch:segment_vr_hash").unwrap();
    assert_eq!(stored.len(), 32);
    assert_eq!(stored, blake3::hash(&[0u8; 96]).as_bytes().to_vec());
    assert_ne!(stored, vec![0u8; 32]);
    let mut other = exit_env(1000, &[1u8; 96]);
    call_exit(&mut other);
    assert_ne!(kv_get(&other, b"bic:epoch:segment_vr_hash").unwrap(), stored);
}

#[test]
fn exit_does_nothing_between_segments() {
    for height in [1u64, 999, 1001, 100_001] {
        let mut env = exit_env(height, &[3u8; 96]);
        assert!(!call_exit(&mut env));
        assert_eq!(kv_get(&env, b"bic:epoch:segment_vr_hash"), None);
        assert!(env.muts.is_empty());
        assert!(env.muts_rev.is_empty());
        assert_eq!(kv_get(&env, b"left over"), Some(b"x".to_vec()));
    }
}

#[test]
fn exit_calls_for_the_epoch_at_the_last_height() {
    for height in [99_999u64, 199_999, 1_099_999] {
        let mut env = exit_env(height, &[3u8; 96]);
        assert!(call_exit(&mut env));
        assert_eq!(kv_get(&env, b"bic:epoch:segment_vr_hash"), None);
        assert!(env.muts.is_empty());
    }
    for height in [0u64, 100_000, 99_998] {
        let mut env = exit_env(height, &[3u8; 96]);
        assert!(!call_exit(&mut env));
    }
}

#[test]
fn segment_digest_is_a_business_write() {
    let mut env = exit_env(7, &[3u8; 96]);
    kv_put(&mut env, b"bic:epoch:segment_vr_hash", b"previous");
    record_segment_digest(&mut env, &[9u8; 32]);
    assert_eq!(kv_get(&env, b"bic:epoch:segment_vr_hash"), Some(vec![9u8; 32]));
    assert_eq!(env.muts.len(), 3);
    assert_eq!(
        env.muts_rev[2],
        Mutation::Put { key: b"bic:epoch:segment_vr_hash".to_vec(), value: b"previous".to_vec() }
    );
}
