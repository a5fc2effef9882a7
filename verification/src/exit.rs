//! End-of-entry bookkeeping at fixed heights.
//!
//! The run of an entry does not perform this step. Where it is wanted, it
//! follows the last transaction: `call_exit` first, then the epoch
//! transition if `call_exit` says it is due, then `commit_journal`.

use vstd::prelude::*;
use crate::context::{ApplyEnv, ApplyEnvView};
use crate::keys::{segment_key, segment_key_spec};
use crate::kv::{kv_put, put_effect};
use crate::pipeline::cleared;

verus! {

/// The BLAKE3 digest of a byte string.
pub uninterp spec fn blake3_digest(data: Seq<u8>) -> Seq<u8>;

/// Calls `blake3::hash` and takes the 32 bytes of the `Hash` it returns.
/// The contract names that value: the default-mode BLAKE3 digest of `data`,
/// which depends on nothing but `data`.
#[verifier::external_body]
fn blake3_hash(data: &[u8]) -> (digest: [u8; 32])
    ensures
        digest@ == blake3_digest(data@),
{
    *blake3::hash(data).as_bytes()
}

/// Whether an entry at `height` records the digest of its random value:
/// every thousandth height does.
pub open spec fn segment_due(height: u64) -> bool {
    height % 1000 == 0
}

/// Whether an entry at `height` is the last of its epoch: the height before
/// every hundred-thousandth is.
pub open spec fn epoch_due(height: u64) -> bool {
    height % 100_000 == 99_999
}

/// Records `digest` as the rolling digest of the entry's random value, as a
/// business write.
pub fn record_segment_digest(env: &mut ApplyEnv, digest: &[u8; 32])
    ensures
        final(env)@ == put_effect(old(env)@, segment_key_spec(), digest@),
{
    let key = segment_key();
    kv_put(env, key.as_slice(), digest.as_slice());
}

/// The execution state after the bookkeeping of an entry whose random value
/// has the given digest: the business journal starts empty, and at a
/// segment height the digest is written.
pub open spec fn exit_effect(e: ApplyEnvView, digest: Seq<u8>) -> ApplyEnvView {
    if segment_due(e.caller.entry_height) {
        put_effect(cleared(e), segment_key_spec(), digest)
    } else {
        cleared(e)
    }
}

/// Starts the end-of-entry bookkeeping: empties the business journal and,
/// at every thousandth height, records the BLAKE3 digest of the entry's
/// random value. Says whether the epoch transition is due.
pub fn call_exit(env: &mut ApplyEnv) -> (advance_epoch: bool)
    ensures
        final(env)@ == exit_effect(old(env)@, blake3_digest(old(env)@.caller.entry_vr)),
        advance_epoch == epoch_due(old(env)@.caller.entry_height),
{
    env.muts = Vec::new();
    env.muts_rev = Vec::new();
    proof {
        assert(env@.muts =~= Seq::empty());
        assert(env@.muts_rev =~= Seq::empty());
    }
    if env.caller_env.entry_height % 1000 == 0 {
        let digest = blake3_hash(env.caller_env.entry_vr.as_slice());
        record_segment_digest(env, &digest);
    }
    env.caller_env.entry_height % 100_000 == 99_999
}

} // verus!
