//! The execution context: what contract code sees of the entry and the
//! current transaction, and the per-entry state that the pipeline threads
//! through every stage.

use vstd::prelude::*;
use crate::bytes::copy_bytes;
use crate::mutation::{Mutation, MutationView};
use crate::store::{KvStore, State};

verus! {

/// The execution budget of a call, in points.
pub const CALL_EXEC_POINTS: u64 = 10_000_000;

/// The bits of the 64-bit IEEE 754 number 1.0, the initial float seed.
pub const SEED_ONE: u64 = 0x3FF0_0000_0000_0000;

/// The environment of one call, as contract code sees it.
#[derive(Debug)]
pub struct CallerEnv {
    pub readonly: bool,
    pub seed: Vec<u8>,
    /// The float seed, held as the bits of a 64-bit IEEE 754 number.
    pub seedf64_bits: u64,
    pub entry_signer: [u8; 48],
    pub entry_prev_hash: [u8; 32],
    pub entry_slot: u64,
    pub entry_prev_slot: u64,
    pub entry_height: u64,
    pub entry_epoch: u64,
    pub entry_vr: [u8; 96],
    pub entry_vr_b3: [u8; 32],
    pub entry_dr: [u8; 32],
    pub tx_index: u64,
    pub tx_signer: [u8; 48],
    pub tx_nonce: u64,
    pub tx_hash: [u8; 32],
    pub account_origin: Vec<u8>,
    pub account_caller: Vec<u8>,
    pub account_current: Vec<u8>,
    pub attached_symbol: Vec<u8>,
    pub attached_amount: Vec<u8>,
    pub call_counter: u32,
    pub call_exec_points: u64,
    pub call_exec_points_remaining: u64,
}

/// A call environment as a mathematical value.
pub struct CallerEnvView {
    pub readonly: bool,
    pub seed: Seq<u8>,
    pub seedf64_bits: u64,
    pub entry_signer: Seq<u8>,
    pub entry_prev_hash: Seq<u8>,
    pub entry_slot: u64,
    pub entry_prev_slot: u64,
    pub entry_height: u64,
    pub entry_epoch: u64,
    pub entry_vr: Seq<u8>,
    pub entry_vr_b3: Seq<u8>,
    pub entry_dr: Seq<u8>,
    pub tx_index: u64,
    pub tx_signer: Seq<u8>,
    pub tx_nonce: u64,
    pub tx_hash: Seq<u8>,
    pub account_origin: Seq<u8>,
    pub account_caller: Seq<u8>,
    pub account_current: Seq<u8>,
    pub attached_symbol: Seq<u8>,
    pub attached_amount: Seq<u8>,
    pub call_counter: u32,
    pub call_exec_points: u64,
    pub call_exec_points_remaining: u64,
}

impl View for CallerEnv {
    type V = CallerEnvView;

    open spec fn view(&self) -> CallerEnvView {
        CallerEnvView {
            readonly: self.readonly,
            seed: self.seed@,
            seedf64_bits: self.seedf64_bits,
            entry_signer: self.entry_signer@,
            entry_prev_hash: self.entry_prev_hash@,
            entry_slot: self.entry_slot,
            entry_prev_slot: self.entry_prev_slot,
            entry_height: self.entry_height,
            entry_epoch: self.entry_epoch,
            entry_vr: self.entry_vr@,
            entry_vr_b3: self.entry_vr_b3@,
            entry_dr: self.entry_dr@,
            tx_index: self.tx_index,
            tx_signer: self.tx_signer@,
            tx_nonce: self.tx_nonce,
            tx_hash: self.tx_hash@,
            account_origin: self.account_origin@,
            account_caller: self.account_caller@,
            account_current: self.account_current@,
            attached_symbol: self.attached_symbol@,
            attached_amount: self.attached_amount@,
            call_counter: self.call_counter,
            call_exec_points: self.call_exec_points,
            call_exec_points_remaining: self.call_exec_points_remaining,
        }
    }
}

/// `n` zero bytes.
pub open spec fn zeros(n: nat) -> Seq<u8> {
    Seq::new(n, |i: int| 0u8)
}

/// The call environment at the start of an entry: the entry's own fields as
/// given, no transaction yet, no accounts, the full execution budget.
pub open spec fn initial_caller(
    entry_signer: Seq<u8>,
    entry_prev_hash: Seq<u8>,
    entry_slot: u64,
    entry_prev_slot: u64,
    entry_height: u64,
    entry_epoch: u64,
    entry_vr: Seq<u8>,
    entry_vr_b3: Seq<u8>,
    entry_dr: Seq<u8>,
) -> CallerEnvView {
    CallerEnvView {
        readonly: false,
        seed: Seq::empty(),
        seedf64_bits: SEED_ONE,
        entry_signer,
        entry_prev_hash,
        entry_slot,
        entry_prev_slot,
        entry_height,
        entry_epoch,
        entry_vr,
        entry_vr_b3,
        entry_dr,
        tx_index: 0,
        tx_signer: zeros(48),
        tx_nonce: 0,
        tx_hash: zeros(32),
        account_origin: Seq::empty(),
        account_caller: Seq::empty(),
        account_current: Seq::empty(),
        attached_symbol: Seq::empty(),
        attached_amount: Seq::empty(),
        call_counter: 0,
        call_exec_points: CALL_EXEC_POINTS,
        call_exec_points_remaining: CALL_EXEC_POINTS,
    }
}

/// Builds the call environment for an entry.
pub fn make_caller_env(
    entry_signer: &[u8; 48],
    entry_prev_hash: &[u8; 32],
    entry_slot: u64,
    entry_prev_slot: u64,
    entry_height: u64,
    entry_epoch: u64,
    entry_vr: &[u8; 96],
    entry_vr_b3: &[u8; 32],
    entry_dr: &[u8; 32],
) -> (env: CallerEnv)
    ensures
        env@ == initial_caller(
            entry_signer@,
            entry_prev_hash@,
            entry_slot,
            entry_prev_slot,
            entry_height,
            entry_epoch,
            entry_vr@,
            entry_vr_b3@,
            entry_dr@,
        ),
{
    let env = CallerEnv {
        readonly: false,
        seed: Vec::new(),
        seedf64_bits: SEED_ONE,
        entry_signer: *entry_signer,
        entry_prev_hash: *entry_prev_hash,
        entry_slot: entry_slot,
        entry_prev_slot: entry_prev_slot,
        entry_height: entry_height,
        entry_epoch: entry_epoch,
        entry_vr: *entry_vr,
        entry_vr_b3: *entry_vr_b3,
        entry_dr: *entry_dr,
        tx_index: 0,
        tx_signer: [0u8;48],
        tx_nonce: 0,
        tx_hash: [0u8;32],
        account_origin: Vec::new(),
        account_caller: Vec::new(),
        account_current: Vec::new(),
        attached_symbol: Vec::new(),
        attached_amount: Vec::new(),
        call_counter: 0,
        call_exec_points: CALL_EXEC_POINTS,
        call_exec_points_remaining: CALL_EXEC_POINTS,
    };
    proof {
        assert(env.tx_signer@ =~= zeros(48));
        assert(env.tx_hash@ =~= zeros(32));
    }
    env
}

/// The record that the pipeline keeps of one transaction: `"ok"` or the tag
/// of what went wrong.
#[derive(Clone, Copy, Debug, PartialEq, Eq)]
pub struct TxResult {
    pub error: &'static str,
}

impl DeepView for TxResult {
    type V = Seq<char>;

    open spec fn deep_view(&self) -> Seq<char> {
        self.error@
    }
}

/// The state of one entry's execution: the call environment, the contract
/// state, the journals of the current action and the logs of the entry.
#[derive(Debug)]
pub struct ApplyEnv {
    pub caller_env: CallerEnv,
    pub store: KvStore,
    pub muts_final: Vec<Mutation>,
    pub muts_final_rev: Vec<Mutation>,
    pub muts: Vec<Mutation>,
    pub muts_gas: Vec<Mutation>,
    pub muts_rev: Vec<Mutation>,
    pub muts_rev_gas: Vec<Mutation>,
    pub result_log: Vec<TxResult>,
}

/// An entry's execution state as a mathematical value.
pub struct ApplyEnvView {
    pub caller: CallerEnvView,
    pub store: State,
    pub muts_final: Seq<MutationView>,
    pub muts_final_rev: Seq<MutationView>,
    pub muts: Seq<MutationView>,
    pub muts_gas: Seq<MutationView>,
    pub muts_rev: Seq<MutationView>,
    pub muts_rev_gas: Seq<MutationView>,
    pub results: Seq<Seq<char>>,
}

impl View for ApplyEnv {
    type V = ApplyEnvView;

    open spec fn view(&self) -> ApplyEnvView {
        ApplyEnvView {
            caller: self.caller_env@,
            store: self.store@,
            muts_final: self.muts_final.deep_view(),
            muts_final_rev: self.muts_final_rev.deep_view(),
            muts: self.muts.deep_view(),
            muts_gas: self.muts_gas.deep_view(),
            muts_rev: self.muts_rev.deep_view(),
            muts_rev_gas: self.muts_rev_gas.deep_view(),
            results: self.result_log.deep_view(),
        }
    }
}

/// The execution state at the start of an entry: the given contract state,
/// a fresh call environment, empty journals and logs.
pub open spec fn initial_env(store: State, caller: CallerEnvView) -> ApplyEnvView {
    ApplyEnvView {
        caller,
        store,
        muts_final: Seq::empty(),
        muts_final_rev: Seq::empty(),
        muts: Seq::empty(),
        muts_gas: Seq::empty(),
        muts_rev: Seq::empty(),
        muts_rev_gas: Seq::empty(),
        results: Seq::empty(),
    }
}

/// Builds the execution state for an entry over the given contract state.
pub fn make_apply_env(
    store: KvStore,
    entry_signer: &[u8; 48],
    entry_prev_hash: &[u8; 32],
    entry_slot: u64,
    entry_prev_slot: u64,
    entry_height: u64,
    entry_epoch: u64,
    entry_vr: &[u8; 96],
    entry_vr_b3: &[u8; 32],
    entry_dr: &[u8; 32],
) -> (env: ApplyEnv)
    ensures
        env@ == initial_env(
            store@,
            initial_caller(
                entry_signer@,
                entry_prev_hash@,
                entry_slot,
                entry_prev_slot,
                entry_height,
                entry_epoch,
                entry_vr@,
                entry_vr_b3@,
                entry_dr@,
            ),
        ),
{
    let env = ApplyEnv {
        caller_env: make_caller_env(
            entry_signer,
            entry_prev_hash,
            entry_slot,
            entry_prev_slot,
            entry_height,
            entry_epoch,
            entry_vr,
            entry_vr_b3,
            entry_dr,
        ),
        store: store,
        muts_final: Vec::new(),
        muts_final_rev: Vec::new(),
        muts: Vec::new(),
        muts_gas: Vec::new(),
        muts_rev: Vec::new(),
        muts_rev_gas: Vec::new(),
        result_log: Vec::new(),
    };
    proof {
        assert(env@.muts_final =~= Seq::empty());
        assert(env@.muts_final_rev =~= Seq::empty());
        assert(env@.muts =~= Seq::empty());
        assert(env@.muts_gas =~= Seq::empty());
        assert(env@.muts_rev =~= Seq::empty());
        assert(env@.muts_rev_gas =~= Seq::empty());
        assert(env@.results =~= Seq::empty());
    }
    env
}

/// The call environment once a transaction's hash, signer and nonce are set:
/// the signer also becomes the origin account.
pub open spec fn with_tx(c: CallerEnvView, tx_hash: Seq<u8>, tx_signer: Seq<u8>, tx_nonce: u64)
    -> CallerEnvView {
    CallerEnvView { tx_hash, tx_nonce, tx_signer, account_origin: tx_signer, ..c }
}

/// Sets the per-transaction fields of the call environment. Nothing else
/// changes, and the contract state is not touched.
pub fn set_apply_env_tx(
    env: &mut ApplyEnv,
    tx_hash: &[u8; 32],
    tx_signer: &[u8; 48],
    tx_nonce: u64,
)
    ensures
        final(env)@ == (ApplyEnvView {
            caller: with_tx(old(env)@.caller, tx_hash@, tx_signer@, tx_nonce),
            ..old(env)@
        }),
{
    env.caller_env.tx_hash = *tx_hash;
    env.caller_env.tx_nonce = tx_nonce;
    env.caller_env.tx_signer = *tx_signer;
    env.caller_env.account_origin = copy_bytes(tx_signer.as_slice());
}

impl ApplyEnv {
    /// Gives up the execution state for what the caller commits: the
    /// contract state, the forward log, the reverse log and the results.
    pub fn into_parts(self) -> (parts: (KvStore, Vec<Mutation>, Vec<Mutation>, Vec<TxResult>))
        ensures
            parts.0@ == self@.store,
            parts.1.deep_view() == self@.muts_final,
            parts.2.deep_view() == self@.muts_final_rev,
            parts.3.deep_view() == self@.results,
    {
        (self.store, self.muts_final, self.muts_final_rev, self.result_log)
    }
}

} // verus!
