//! The entry pipeline: the fee pre-charge pass, the action dispatcher with
//! its isolation boundary, and the run that sequences them.
//!
//! The pipeline decides; it does not perform what lies outside it. A run is
//! advanced with `apply_entry`, which takes what the outside has just done
//! and answers with the next thing to do: charge a fee, validate a key,
//! look for bytecode, call a built-in handler, invoke the virtual machine.
//! Whoever drives the run makes its writes through the run's own `kv_*`
//! methods.

use vstd::prelude::*;
use crate::bytes::copy_bytes;
use crate::context::{
    initial_caller,
    initial_env,
    make_apply_env,
    set_apply_env_tx,
    with_tx,
    ApplyEnv,
    ApplyEnvView,
    CallerEnvView,
    TxResult,
};
use crate::decimal::{decimal, to_decimal};
use crate::keys::{nonce_key, nonce_key_spec};
use crate::kv::{
    can_increment,
    gas_increment_effect,
    increment_effect,
    kv_get,
    kv_increment,
    kv_increment_gas,
    kv_put,
    put_effect,
    revert,
    KvError,
};
use crate::mutation::{cell_number, undo, Mutation};
use crate::registry::{builtin_of, call_bic, Builtin};
use crate::store::KvStore;
use crate::vm::{call_wasmvm, escrow_outcome, option_bytes};

verus! {

/// One invocation carried by a transaction.
#[derive(Clone, Debug, PartialEq, Eq)]
pub struct Action {
    pub contract: Vec<u8>,
    pub function: Vec<u8>,
    pub args: Vec<Vec<u8>>,
    pub attached_symbol: Option<Vec<u8>>,
    pub attached_amount: Option<Vec<u8>>,
}

/// An action as a mathematical value.
pub struct ActionView {
    pub contract: Seq<u8>,
    pub function: Seq<u8>,
    pub args: Seq<Seq<u8>>,
    pub attached_symbol: Option<Seq<u8>>,
    pub attached_amount: Option<Seq<u8>>,
}

impl DeepView for Action {
    type V = ActionView;

    open spec fn deep_view(&self) -> ActionView {
        ActionView {
            contract: self.contract@,
            function: self.function@,
            args: self.args.deep_view(),
            attached_symbol: option_bytes(self.attached_symbol),
            attached_amount: option_bytes(self.attached_amount),
        }
    }
}

/// One transaction of the batch: its encoded form, and what was decoded
/// from it.
#[derive(Clone, Debug, PartialEq, Eq)]
pub struct TxUnit {
    pub tx_encoded: Vec<u8>,
    pub hash: [u8; 32],
    pub signer: [u8; 48],
    pub nonce: u64,
    pub actions: Vec<Action>,
}

/// A transaction as a mathematical value.
pub struct TxView {
    pub tx_encoded: Seq<u8>,
    pub hash: Seq<u8>,
    pub signer: Seq<u8>,
    pub nonce: u64,
    pub actions: Seq<ActionView>,
}

impl DeepView for TxUnit {
    type V = TxView;

    open spec fn deep_view(&self) -> TxView {
        TxView {
            tx_encoded: self.tx_encoded@,
            hash: self.hash@,
            signer: self.signer@,
            nonce: self.nonce,
            actions: self.actions.deep_view(),
        }
    }
}

/// How the work on an action ended.
#[derive(Clone, Copy, Debug, PartialEq, Eq)]
pub enum Outcome {
    /// The action ran to its end.
    Done,
    /// The action failed with a tag.
    Failed(&'static str),
    /// The action ended abruptly and left no tag.
    Aborted,
}

/// What the outside reports to the run.
#[derive(Clone, Copy, Debug, PartialEq, Eq)]
pub enum Event {
    /// The run may start.
    Begin,
    /// The fee of the current transaction has been taken from its signer.
    FeeCharged,
    /// Whether the current contract id is a structurally valid public key.
    KeyChecked(bool),
    /// Whether the current contract has deployed bytecode.
    Bytecode(bool),
    /// The handler or the virtual machine has returned.
    Returned(Outcome),
}

/// What the run asks of the outside next.
#[derive(Clone, Copy, Debug, PartialEq, Eq)]
pub enum Step {
    /// Compute the fee of the current transaction from the entry's epoch
    /// and the length of its encoded form, and take it from the signer.
    ChargeFee { epoch: u64, byte_len: usize },
    /// Say whether the current action's contract id is a valid public key.
    ValidateKey,
    /// Say whether the current action's contract has deployed bytecode.
    CheckBytecode,
    /// Run the built-in handler on the current action's arguments.
    CallBuiltin(Builtin),
    /// Invoke the virtual machine on the current action.
    InvokeVm,
    /// Every transaction has its result.
    Finished,
    /// The event was not the one the run was waiting for; nothing changed.
    Rejected,
}

/// Where a run stands.
#[derive(Clone, Copy, Debug, PartialEq, Eq)]
pub enum Phase {
    /// Nothing has happened yet.
    Fresh,
    /// Waiting for the fee of the current transaction to be charged.
    Charging,
    /// Waiting to learn whether the contract id is a public key.
    Validating,
    /// Waiting to learn whether the contract has bytecode.
    Probing,
    /// Waiting for the handler or the virtual machine to return.
    Running,
    /// Done.
    Finished,
}

/// A run as a mathematical value.
pub struct RunView {
    pub env: ApplyEnvView,
    pub txs: Seq<TxView>,
    pub phase: Phase,
    pub cursor: nat,
}

/// The tag of a transaction without actions.
pub open spec fn no_actions() -> Seq<char> {
    "no_actions"@
}

/// The tag of a successful action.
pub open spec fn ok() -> Seq<char> {
    "ok"@
}

/// The tag of a failure that left none.
pub open spec fn unknown() -> Seq<char> {
    "unknown"@
}

/// The call environment when the dispatcher turns to the transaction at
/// `index`: its signer is the origin and the caller.
pub open spec fn enter_tx(c: CallerEnvView, index: nat, tx: TxView) -> CallerEnvView {
    CallerEnvView {
        tx_index: index as u64,
        tx_hash: tx.hash,
        tx_signer: tx.signer,
        tx_nonce: tx.nonce,
        account_origin: tx.signer,
        account_caller: tx.signer,
        ..c
    }
}

/// The execution state at the start of an action on `contract`: the
/// contract is the current account and the four journals are empty.
pub open spec fn enter_action(e: ApplyEnvView, contract: Seq<u8>) -> ApplyEnvView {
    ApplyEnvView {
        caller: CallerEnvView { account_current: contract, ..e.caller },
        muts: Seq::empty(),
        muts_rev: Seq::empty(),
        muts_gas: Seq::empty(),
        muts_rev_gas: Seq::empty(),
        ..e
    }
}

/// The execution state with one more result.
pub open spec fn recorded(e: ApplyEnvView, tag: Seq<char>) -> ApplyEnvView {
    ApplyEnvView { results: e.results.push(tag), ..e }
}

/// The execution state after a successful action: the business journal and
/// then the gas journal join the entry's logs, and the result is `"ok"`.
pub open spec fn settled_ok(e: ApplyEnvView) -> ApplyEnvView {
    ApplyEnvView {
        muts_final: e.muts_final + e.muts + e.muts_gas,
        muts_final_rev: e.muts_final_rev + e.muts_rev + e.muts_rev_gas,
        muts: Seq::empty(),
        muts_rev: Seq::empty(),
        muts_gas: Seq::empty(),
        muts_rev_gas: Seq::empty(),
        results: e.results.push(ok()),
        ..e
    }
}

/// The execution state after a failed action: only the gas journal joins
/// the entry's logs, the business writes are undone on the contract state
/// and dropped, and the result is the tag.
pub open spec fn settled_failed(e: ApplyEnvView, tag: Seq<char>) -> ApplyEnvView {
    ApplyEnvView {
        store: undo(e.store, e.muts_rev),
        muts_final: e.muts_final + e.muts_gas,
        muts_final_rev: e.muts_final_rev + e.muts_rev_gas,
        muts: Seq::empty(),
        muts_rev: Seq::empty(),
        muts_gas: Seq::empty(),
        muts_rev_gas: Seq::empty(),
        results: e.results.push(tag),
        ..e
    }
}

/// The execution state once an action's outcome is settled.
pub open spec fn settled(e: ApplyEnvView, outcome: Outcome) -> ApplyEnvView {
    match outcome {
        Outcome::Done => settled_ok(e),
        Outcome::Failed(tag) => settled_failed(e, tag@),
        Outcome::Aborted => settled_failed(e, unknown()),
    }
}

/// The execution state once the pre-charge pass has turned to `tx`: the
/// transaction's fields are set and its nonce is written under the signer.
pub open spec fn precharged(e: ApplyEnvView, tx: TxView) -> ApplyEnvView {
    put_effect(
        ApplyEnvView { caller: with_tx(e.caller, tx.hash, tx.signer, tx.nonce), ..e },
        nonce_key_spec(tx.signer),
        decimal(tx.nonce as int),
    )
}

/// The execution state once the business journal has joined the entry's
/// logs for good.
pub open spec fn committed(e: ApplyEnvView) -> ApplyEnvView {
    ApplyEnvView {
        muts_final: e.muts_final + e.muts,
        muts_final_rev: e.muts_final_rev + e.muts_rev,
        muts: Seq::empty(),
        muts_rev: Seq::empty(),
        ..e
    }
}

/// The execution state with an empty business journal.
pub open spec fn cleared(e: ApplyEnvView) -> ApplyEnvView {
    ApplyEnvView { muts: Seq::empty(), muts_rev: Seq::empty(), ..e }
}

/// Whether a contract id goes to the virtual machine: it has the length of
/// a public key and is a valid one. Every other id names a built-in.
pub open spec fn routes_to_vm(contract: Seq<u8>, key_valid: bool) -> bool {
    contract.len() == 48 && key_valid
}

/// The dispatcher from the transaction at the cursor on, up to the next
/// thing that the outside has to do.
pub open spec fn dispatch_from(r: RunView) -> (RunView, Step)
    decreases r.txs.len() - r.cursor,
{
    if r.cursor >= r.txs.len() {
        (RunView { phase: Phase::Finished, ..r }, Step::Finished)
    } else {
        let tx = r.txs[r.cursor as int];
        let entered = ApplyEnvView { caller: enter_tx(r.env.caller, r.cursor, tx), ..r.env };
        if tx.actions.len() == 0 {
            dispatch_from(
                RunView { env: recorded(entered, no_actions()), cursor: r.cursor + 1, ..r },
            )
        } else {
            let action = tx.actions[0];
            let started = enter_action(entered, action.contract);
            if action.contract.len() == 48 {
                (RunView { env: started, phase: Phase::Validating, ..r }, Step::ValidateKey)
            } else {
                match builtin_of(action.contract, action.function) {
                    Some(handler) => (
                        RunView { env: started, phase: Phase::Running, ..r },
                        Step::CallBuiltin(handler),
                    ),
                    None => dispatch_from(
                        RunView {
                            env: settled_failed(started, crate::registry::invalid_bic_action()),
                            cursor: r.cursor + 1,
                            ..r
                        },
                    ),
                }
            }
        }
    }
}

/// The pre-charge pass from the transaction at the cursor on. After the
/// last transaction its journal joins the entry's logs and the dispatcher
/// starts from the first transaction.
pub open spec fn charge_from(r: RunView) -> (RunView, Step) {
    if r.cursor < r.txs.len() {
        (
            RunView {
                env: precharged(r.env, r.txs[r.cursor as int]),
                phase: Phase::Charging,
                ..r
            },
            Step::ChargeFee {
                epoch: r.env.caller.entry_epoch,
                byte_len: r.txs[r.cursor as int].tx_encoded.len() as usize,
            },
        )
    } else {
        dispatch_from(RunView { env: committed(r.env), cursor: 0, ..r })
    }
}

/// The action that a waiting run is working on.
pub open spec fn current_action(r: RunView) -> ActionView {
    r.txs[r.cursor as int].actions[0]
}

/// The run after an event, and what it asks for next.
pub open spec fn next(r: RunView, event: Event) -> (RunView, Step) {
    match (r.phase, event) {
        (Phase::Fresh, Event::Begin) => charge_from(RunView { env: cleared(r.env), cursor: 0, ..r }),
        (Phase::Charging, Event::FeeCharged) => charge_from(RunView { cursor: r.cursor + 1, ..r }),
        (Phase::Validating, Event::KeyChecked(valid)) => {
            let action = current_action(r);
            if routes_to_vm(action.contract, valid) {
                (RunView { phase: Phase::Probing, ..r }, Step::CheckBytecode)
            } else {
                match builtin_of(action.contract, action.function) {
                    Some(handler) => (
                        RunView { phase: Phase::Running, ..r },
                        Step::CallBuiltin(handler),
                    ),
                    None => dispatch_from(
                        RunView {
                            env: settled_failed(r.env, crate::registry::invalid_bic_action()),
                            cursor: r.cursor + 1,
                            ..r
                        },
                    ),
                }
            }
        },
        (Phase::Probing, Event::Bytecode(has_bytecode)) => {
            let action = current_action(r);
            let escrow = escrow_outcome(
                r.env,
                has_bytecode,
                action.contract,
                action.attached_symbol,
                action.attached_amount,
            );
            match escrow.1 {
                None => (RunView { env: escrow.0, phase: Phase::Running, ..r }, Step::InvokeVm),
                Some(tag) => dispatch_from(
                    RunView { env: settled_failed(escrow.0, tag), cursor: r.cursor + 1, ..r },
                ),
            }
        },
        (Phase::Running, Event::Returned(outcome)) => dispatch_from(
            RunView { env: settled(r.env, outcome), cursor: r.cursor + 1, ..r },
        ),
        (Phase::Finished, _) => (r, Step::Finished),
        _ => (r, Step::Rejected),
    }
}

/// What a transaction's result is bound to be, whatever the outside does:
/// `"no_actions"` where it has no actions, and `"invalid_bic_action"` where
/// the id of its first action has not the length of a public key and names,
/// with the function, no built-in handler.
pub open spec fn bound_result(tx: TxView) -> Option<Seq<char>> {
    if tx.actions.len() == 0 {
        Some(no_actions())
    } else if tx.actions[0].contract.len() != 48 && builtin_of(
        tx.actions[0].contract,
        tx.actions[0].function,
    ) is None {
        Some(crate::registry::invalid_bic_action())
    } else {
        None
    }
}

/// Whether the results so far are those of the first transactions, one
/// each and in order: result `i` is what transaction `i` is bound to get,
/// where it is bound to get one.
pub open spec fn results_in_step(r: RunView, done: nat) -> bool {
    &&& r.env.results.len() == done
    &&& done <= r.txs.len()
    &&& forall|i: int|
        0 <= i < done && bound_result(#[trigger] r.txs[i]) is Some ==> r.env.results[i]
            == bound_result(r.txs[i])->0
}

/// What holds of every run, wherever it stands.
pub open spec fn well_formed(r: RunView) -> bool {
    match r.phase {
        Phase::Fresh => r.cursor == 0 && results_in_step(r, 0),
        Phase::Charging => r.cursor < r.txs.len() && results_in_step(r, 0),
        Phase::Validating | Phase::Probing | Phase::Running => {
            &&& r.cursor < r.txs.len()
            &&& bound_result(r.txs[r.cursor as int]) is None
            &&& results_in_step(r, r.cursor)
        },
        Phase::Finished => r.cursor == r.txs.len() && results_in_step(r, r.txs.len()),
    }
}

/// Whether `later` holds everything that `earlier` holds for good: the same
/// transactions, and logs and results that start with those of `earlier`.
pub open spec fn extends(earlier: RunView, later: RunView) -> bool {
    &&& later.txs == earlier.txs
    &&& earlier.env.muts_final.is_prefix_of(later.env.muts_final)
    &&& earlier.env.muts_final_rev.is_prefix_of(later.env.muts_final_rev)
    &&& earlier.env.results.is_prefix_of(later.env.results)
}

/// The dispatcher only appends to the entry's logs and results.
pub proof fn lemma_dispatch_extends(r: RunView)
    ensures
        extends(r, dispatch_from(r).0),
        dispatch_from(r).1 is Finished <==> dispatch_from(r).0.phase is Finished,
        !(dispatch_from(r).1 is Rejected),
    decreases r.txs.len() - r.cursor,
{
    if r.cursor < r.txs.len() {
        let tx = r.txs[r.cursor as int];
        let entered = ApplyEnvView { caller: enter_tx(r.env.caller, r.cursor, tx), ..r.env };
        if tx.actions.len() == 0 {
            let after = RunView {
                env: recorded(entered, no_actions()),
                cursor: r.cursor + 1,
                ..r
            };
            lemma_dispatch_extends(after);
        } else {
            let action = tx.actions[0];
            let started = enter_action(entered, action.contract);
            if action.contract.len() != 48 && builtin_of(action.contract, action.function)
                is None {
                let after = RunView {
                    env: settled_failed(started, crate::registry::invalid_bic_action()),
                    cursor: r.cursor + 1,
                    ..r
                };
                lemma_dispatch_extends(after);
            }
        }
    }
}

/// The entry's logs are append-only. Whatever the event, the run keeps its
/// transactions, and its forward log, reverse log and results only grow at
/// the end. The run answers `Finished` exactly when it is finished.
pub proof fn lemma_next_extends(r: RunView, event: Event)
    ensures
        extends(r, next(r, event).0),
        next(r, event).1 is Finished <==> next(r, event).0.phase is Finished,
{
    match (r.phase, event) {
        (Phase::Fresh, Event::Begin) => {
            let c = RunView { env: cleared(r.env), cursor: 0, ..r };
            if !(c.cursor < c.txs.len()) {
                lemma_dispatch_extends(RunView { env: committed(c.env), cursor: 0, ..c });
            }
        },
        (Phase::Charging, Event::FeeCharged) => {
            let c = RunView { cursor: r.cursor + 1, ..r };
            if !(c.cursor < c.txs.len()) {
                lemma_dispatch_extends(RunView { env: committed(c.env), cursor: 0, ..c });
            }
        },
        (Phase::Validating, Event::KeyChecked(valid)) => {
            lemma_dispatch_extends(
                RunView {
                    env: settled_failed(r.env, crate::registry::invalid_bic_action()),
                    cursor: r.cursor + 1,
                    ..r
                },
            );
        },
        (Phase::Probing, Event::Bytecode(has_bytecode)) => {
            let action = current_action(r);
            let escrow = escrow_outcome(
                r.env,
                has_bytecode,
                action.contract,
                action.attached_symbol,
                action.attached_amount,
            );
            if escrow.1 is Some {
                lemma_dispatch_extends(
                    RunView {
                        env: settled_failed(escrow.0, escrow.1->0),
                        cursor: r.cursor + 1,
                        ..r
                    },
                );
            }
        },
        (Phase::Running, Event::Returned(outcome)) => {
            lemma_dispatch_extends(
                RunView { env: settled(r.env, outcome), cursor: r.cursor + 1, ..r },
            );
        },
        _ => {},
    }
}

/// Settles the outcome of the current action: on success both journals join
/// the entry's logs; on failure only the gas journal does, and the business
/// writes are undone. Either way the transaction gets its result.
pub fn settle(env: &mut ApplyEnv, outcome: Outcome)
    ensures
        final(env)@ == settled(old(env)@, outcome),
        outcome is Done ==> final(env)@.muts_final == old(env)@.muts_final + old(env)@.muts + old(
            env,
        )@.muts_gas && final(env)@.muts_final_rev == old(env)@.muts_final_rev + old(env)@.muts_rev
            + old(env)@.muts_rev_gas && final(env)@.store == old(env)@.store,
        !(outcome is Done) ==> final(env)@.muts_final == old(env)@.muts_final + old(env)@.muts_gas
            && final(env)@.muts_final_rev == old(env)@.muts_final_rev + old(env)@.muts_rev_gas
            && final(env)@.store == undo(old(env)@.store, old(env)@.muts_rev),
{
    match outcome {
        Outcome::Done => {
            env.muts_final.append(&mut env.muts);
            env.muts_final.append(&mut env.muts_gas);
            env.muts_final_rev.append(&mut env.muts_rev);
            env.muts_final_rev.append(&mut env.muts_rev_gas);
            env.result_log.push(TxResult { error: "ok" });
            proof {
                let e = old(env)@;
                assert(final(env)@.muts_final =~= e.muts_final + e.muts + e.muts_gas);
                assert(final(env)@.muts_final_rev =~= e.muts_final_rev + e.muts_rev
                    + e.muts_rev_gas);
                assert(final(env)@.muts =~= Seq::empty());
                assert(final(env)@.muts_rev =~= Seq::empty());
                assert(final(env)@.muts_gas =~= Seq::empty());
                assert(final(env)@.muts_rev_gas =~= Seq::empty());
                assert(final(env)@.results =~= e.results.push(ok()));
            }
        },
        Outcome::Failed(tag) => {
            settle_failed(env, tag);
        },
        Outcome::Aborted => {
            settle_failed(env, "unknown");
        },
    }
}

/// Settles a failed action under `tag`.
fn settle_failed(env: &mut ApplyEnv, tag: &'static str)
    ensures
        final(env)@ == settled_failed(old(env)@, tag@),
{
    env.muts_final.append(&mut env.muts_gas);
    env.muts_final_rev.append(&mut env.muts_rev_gas);
    revert(env);
    env.muts = Vec::new();
    env.muts_rev = Vec::new();
    env.result_log.push(TxResult { error: tag });
    proof {
        let e = old(env)@;
        assert(final(env)@.muts_final =~= e.muts_final + e.muts_gas);
        assert(final(env)@.muts_final_rev =~= e.muts_final_rev + e.muts_rev_gas);
        assert(final(env)@.muts =~= Seq::empty());
        assert(final(env)@.muts_rev =~= Seq::empty());
        assert(final(env)@.muts_gas =~= Seq::empty());
        assert(final(env)@.muts_rev_gas =~= Seq::empty());
        assert(final(env)@.results =~= e.results.push(tag@));
    }
}

/// Moves the business journal into the entry's logs for good.
pub fn commit_journal(env: &mut ApplyEnv)
    ensures
        final(env)@ == committed(old(env)@),
{
    env.muts_final.append(&mut env.muts);
    env.muts_final_rev.append(&mut env.muts_rev);
    proof {
        let e = old(env)@;
        assert(final(env)@.muts_final =~= e.muts_final + e.muts);
        assert(final(env)@.muts_final_rev =~= e.muts_final_rev + e.muts_rev);
        assert(final(env)@.muts =~= Seq::empty());
        assert(final(env)@.muts_rev =~= Seq::empty());
    }
}

/// Empties the business journal.
fn clear_journal(env: &mut ApplyEnv)
    ensures
        final(env)@ == cleared(old(env)@),
{
    env.muts = Vec::new();
    env.muts_rev = Vec::new();
    proof {
        assert(final(env)@.muts =~= Seq::empty());
        assert(final(env)@.muts_rev =~= Seq::empty());
    }
}

/// Turns the pre-charge pass to `tx`: sets the transaction's fields and
/// writes its nonce under its signer.
pub fn precharge_tx(env: &mut ApplyEnv, tx: &TxUnit)
    ensures
        final(env)@ == precharged(old(env)@, tx.deep_view()),
{
    set_apply_env_tx(env, &tx.hash, &tx.signer, tx.nonce);
    let key = nonce_key(tx.signer.as_slice());
    let text = to_decimal(tx.nonce as i128);
    kv_put(env, key.as_slice(), text.as_slice());
}

/// The run of one entry through the pipeline.
#[derive(Debug)]
pub struct EntryRun {
    env: ApplyEnv,
    txs: Vec<TxUnit>,
    phase: Phase,
    cursor: usize,
}

impl View for EntryRun {
    type V = RunView;

    closed spec fn view(&self) -> RunView {
        RunView {
            env: self.env@,
            txs: self.txs.deep_view(),
            phase: self.phase,
            cursor: self.cursor as nat,
        }
    }
}

impl EntryRun {
    /// Whether the run is in a state that the pipeline can reach.
    pub open spec fn wf(&self) -> bool {
        well_formed(self@)
    }

    /// A run over `txs` on the given contract state, with nothing done yet.
    pub fn new(
        store: KvStore,
        entry_signer: &[u8; 48],
        entry_prev_hash: &[u8; 32],
        entry_slot: u64,
        entry_prev_slot: u64,
        entry_height: u64,
        entry_epoch: u64,
        entry_vr: &[u8; 96],
        entry_vr_b3: &[u8; 32],
        entry_dr: &[u8; 32],
        txs: Vec<TxUnit>,
    ) -> (run: EntryRun)
        ensures
            run.wf(),
            run@ == (RunView {
                env: initial_env(
                    store@,
                    initial_caller(
                        entry_signer@,
                        entry_prev_hash@,
                        entry_slot,
                        entry_prev_slot,
                        entry_height,
                        entry_epoch,
                        entry_vr@,
                        entry_vr_b3@,
                        entry_dr@,
                    ),
                ),
                txs: txs.deep_view(),
                phase: Phase::Fresh,
                cursor: 0,
            }),
    {
        let env = make_apply_env(
            store,
            entry_signer,
            entry_prev_hash,
            entry_slot,
            entry_prev_slot,
            entry_height,
            entry_epoch,
            entry_vr,
            entry_vr_b3,
            entry_dr,
        );
        EntryRun { env, txs, phase: Phase::Fresh, cursor: 0 }
    }

    /// The execution state, to read.
    pub fn env(&self) -> (env: &ApplyEnv)
        ensures
            env@ == self@.env,
    {
        &self.env
    }

    /// Where the run stands.
    pub fn phase(&self) -> (phase: Phase)
        ensures
            phase == self@.phase,
    {
        self.phase
    }

    /// The transaction that the run is working on, if it is working on one.
    pub fn current_tx(&self) -> (tx: Option<&TxUnit>)
        ensures
            match tx {
                Some(t) => self@.cursor < self@.txs.len() && t.deep_view()
                    == self@.txs[self@.cursor as int],
                None => self@.cursor >= self@.txs.len(),
            },
    {
        if self.cursor < self.txs.len() {
            Some(&self.txs[self.cursor])
        } else {
            None
        }
    }

    /// Reads the contract state on behalf of contract logic.
    pub fn kv_get(&self, key: &[u8]) -> (value: Option<Vec<u8>>)
        ensures
            match value {
                Some(v) => self@.env.store.contains_key(key@) && v@ == self@.env.store[key@],
                None => !self@.env.store.contains_key(key@),
            },
    {
        kv_get(&self.env, key)
    }

    /// A business write on behalf of contract logic.
    pub fn kv_put(&mut self, key: &[u8], value: &[u8])
        ensures
            final(self)@ == (RunView {
                env: put_effect(old(self)@.env, key@, value@),
                ..old(self)@
            }),
            old(self).wf() ==> final(self).wf(),
    {
        kv_put(&mut self.env, key, value);
    }

    /// A business increment on behalf of contract logic.
    pub fn kv_increment(&mut self, key: &[u8], delta: i128) -> (r: Result<i128, KvError>)
        ensures
            match r {
                Ok(sum) => can_increment(old(self)@.env.store, key@, delta as int) && cell_number(
                    old(self)@.env.store,
                    key@,
                ) == Some(sum - delta) && final(self)@ == (RunView {
                    env: increment_effect(old(self)@.env, key@, delta as int),
                    ..old(self)@
                }),
                Err(e) => !can_increment(old(self)@.env.store, key@, delta as int) && final(self)@
                    == old(self)@ && (e == KvError::NotANumber <==> cell_number(
                    old(self)@.env.store,
                    key@,
                ) is None),
            },
            old(self).wf() ==> final(self).wf(),
    {
        kv_increment(&mut self.env, key, delta)
    }

    /// A cost-accounting increment on behalf of contract logic.
    pub fn kv_increment_gas(&mut self, key: &[u8], delta: i128) -> (r: Result<i128, KvError>)
        ensures
            match r {
                Ok(sum) => can_increment(old(self)@.env.store, key@, delta as int) && cell_number(
                    old(self)@.env.store,
                    key@,
                ) == Some(sum - delta) && final(self)@ == (RunView {
                    env: gas_increment_effect(old(self)@.env, key@, delta as int),
                    ..old(self)@
                }),
                Err(e) => !can_increment(old(self)@.env.store, key@, delta as int) && final(self)@
                    == old(self)@ && (e == KvError::NotANumber <==> cell_number(
                    old(self)@.env.store,
                    key@,
                ) is None),
            },
            old(self).wf() ==> final(self).wf(),
    {
        kv_increment_gas(&mut self.env, key, delta)
    }

    /// Gives up the run for what the caller commits: the contract state, the
    /// forward log, the reverse log and the results. Of a finished run
    /// there is one result for each transaction.
    pub fn into_parts(self) -> (parts: (KvStore, Vec<Mutation>, Vec<Mutation>, Vec<TxResult>))
        requires
            self.wf(),
        ensures
            parts.0@ == self@.env.store,
            parts.1.deep_view() == self@.env.muts_final,
            parts.2.deep_view() == self@.env.muts_final_rev,
            parts.3.deep_view() == self@.env.results,
            self@.phase is Finished ==> parts.3@.len() == self@.txs.len(),
    {
        self.env.into_parts()
    }
}

/// The pre-charge pass, from the transaction at the cursor on: turns to the
/// next transaction and asks for its fee, or, after the last one, closes
/// the pass and starts the dispatcher.
fn call_txs_pre_upfront_cost(run: &mut EntryRun) -> (step: Step)
    requires
        old(run)@.cursor <= old(run)@.txs.len(),
        results_in_step(old(run)@, 0),
    ensures
        (final(run)@, step) == charge_from(old(run)@),
        final(run).wf(),
{
    if run.cursor < run.txs.len() {
        precharge_tx(&mut run.env, &run.txs[run.cursor]);
        run.phase = Phase::Charging;
        Step::ChargeFee {
            epoch: run.env.caller_env.entry_epoch,
            byte_len: run.txs[run.cursor].tx_encoded.len(),
        }
    } else {
        commit_journal(&mut run.env);
        run.cursor = 0;
        dispatch(run)
    }
}

/// Records the failure of the current action and moves on.
fn fail_and_dispatch(run: &mut EntryRun, tag: &'static str) -> (step: Step)
    requires
        old(run)@.cursor < old(run)@.txs.len(),
        bound_result(old(run)@.txs[old(run)@.cursor as int]) is None,
        results_in_step(old(run)@, old(run)@.cursor),
    ensures
        (final(run)@, step) == dispatch_from(
            RunView {
                env: settled_failed(old(run)@.env, tag@),
                cursor: old(run)@.cursor + 1,
                ..old(run)@
            },
        ),
        final(run).wf(),
{
    settle_failed(&mut run.env, tag);
    assert(run.cursor < run.txs.len());
    run.cursor = run.cursor + 1;
    dispatch(run)
}

/// Hands the current action to its built-in handler, or fails it where the
/// registry has none.
fn route_builtin(run: &mut EntryRun) -> (step: Step)
    requires
        old(run)@.cursor < old(run)@.txs.len(),
        bound_result(old(run)@.txs[old(run)@.cursor as int]) is None,
        results_in_step(old(run)@, old(run)@.cursor),
    ensures
        (final(run)@, step) == (match builtin_of(
            current_action(old(run)@).contract,
            current_action(old(run)@).function,
        ) {
            Some(handler) => (
                RunView { phase: Phase::Running, ..old(run)@ },
                Step::CallBuiltin(handler),
            ),
            None => dispatch_from(
                RunView {
                    env: settled_failed(old(run)@.env, crate::registry::invalid_bic_action()),
                    cursor: old(run)@.cursor + 1,
                    ..old(run)@
                },
            ),
        }),
        final(run).wf(),
{
    let action = &run.txs[run.cursor].actions[0];
    match call_bic(action.contract.as_slice(), action.function.as_slice()) {
        Ok(handler) => {
            run.phase = Phase::Running;
            Step::CallBuiltin(handler)
        },
        Err(tag) => fail_and_dispatch(run, tag),
    }
}

/// The dispatcher, from the transaction at the cursor on: gives every
/// transaction without actions its result, fails every action that names no
/// handler, and stops at the first action that needs the outside.
fn dispatch(run: &mut EntryRun) -> (step: Step)
    requires
        results_in_step(old(run)@, old(run)@.cursor),
    ensures
        (final(run)@, step) == dispatch_from(old(run)@),
        final(run).wf(),
{
    while run.cursor < run.txs.len()
        invariant
            dispatch_from(run@) == dispatch_from(old(run)@),
            results_in_step(run@, run@.cursor),
        decreases run@.txs.len() - run@.cursor,
    {
        let ghost before = run@;
        let tx = &run.txs[run.cursor];
        run.env.caller_env.tx_index = run.cursor as u64;
        run.env.caller_env.tx_hash = tx.hash;
        run.env.caller_env.tx_signer = tx.signer;
        run.env.caller_env.tx_nonce = tx.nonce;
        run.env.caller_env.account_origin = copy_bytes(tx.signer.as_slice());
        run.env.caller_env.account_caller = copy_bytes(tx.signer.as_slice());
        let ghost entered = ApplyEnvView {
            caller: enter_tx(before.env.caller, before.cursor, before.txs[before.cursor as int]),
            ..before.env
        };
        if tx.actions.len() == 0 {
            run.env.result_log.push(TxResult { error: "no_actions" });
            run.cursor = run.cursor + 1;
            proof {
                assert(run@.env.results =~= entered.results.push(no_actions()));
                assert(run@.env == recorded(entered, no_actions()));
            }
        } else {
            let action = &tx.actions[0];
            run.env.caller_env.account_current = copy_bytes(action.contract.as_slice());
            run.env.muts = Vec::new();
            run.env.muts_rev = Vec::new();
            run.env.muts_gas = Vec::new();
            run.env.muts_rev_gas = Vec::new();
            proof {
                assert(run@.env.muts =~= Seq::empty());
                assert(run@.env.muts_rev =~= Seq::empty());
                assert(run@.env.muts_gas =~= Seq::empty());
                assert(run@.env.muts_rev_gas =~= Seq::empty());
                assert(run@.env == enter_action(entered, current_action(before).contract));
            }
            if action.contract.len() == 48 {
                run.phase = Phase::Validating;
                return Step::ValidateKey;
            }
            match call_bic(action.contract.as_slice(), action.function.as_slice()) {
                Ok(handler) => {
                    run.phase = Phase::Running;
                    return Step::CallBuiltin(handler);
                },
                Err(tag) => {
                    settle_failed(&mut run.env, tag);
                    run.cursor = run.cursor + 1;
                },
            }
        }
    }
    run.phase = Phase::Finished;
    Step::Finished
}

/// Advances the run of an entry by one event.
///
/// The run starts on `Begin`. It first makes the pre-charge pass over the
/// whole batch, asking for each transaction's fee in turn, and then takes the
/// first action of each transaction through the dispatcher: a contract id
/// that is a valid public key goes to the virtual machine after the escrow
/// step, any other to the built-in registry. A failure, whatever its tag,
/// is confined to its transaction's result. An event that the run is not
/// waiting for changes nothing.
pub fn apply_entry(run: &mut EntryRun, event: Event) -> (step: Step)
    requires
        old(run).wf(),
    ensures
        final(run).wf(),
        (final(run)@, step) == next(old(run)@, event),
        extends(old(run)@, final(run)@),
        step is Finished <==> final(run)@.phase is Finished,
        step is Finished ==> final(run)@.env.results.len() == final(run)@.txs.len(),
{
    proof {
        lemma_next_extends(old(run)@, event);
    }
    match (run.phase, event) {
        (Phase::Fresh, Event::Begin) => {
            clear_journal(&mut run.env);
            run.cursor = 0;
            call_txs_pre_upfront_cost(run)
        },
        (Phase::Charging, Event::FeeCharged) => {
            assert(run.cursor < run.txs.len());
            run.cursor = run.cursor + 1;
            call_txs_pre_upfront_cost(run)
        },
        (Phase::Validating, Event::KeyChecked(valid)) => {
            if valid && run.txs[run.cursor].actions[0].contract.len() == 48 {
                run.phase = Phase::Probing;
                Step::CheckBytecode
            } else {
                route_builtin(run)
            }
        },
        (Phase::Probing, Event::Bytecode(has_bytecode)) => {
            let action = &run.txs[run.cursor].actions[0];
            match call_wasmvm(
                &mut run.env,
                has_bytecode,
                action.contract.as_slice(),
                &action.attached_symbol,
                &action.attached_amount,
            ) {
                Ok(_) => {
                    run.phase = Phase::Running;
                    Step::InvokeVm
                },
                Err(tag) => fail_and_dispatch(run, tag),
            }
        },
        (Phase::Running, Event::Returned(outcome)) => {
            settle(&mut run.env, outcome);
            assert(run.cursor < run.txs.len());
            run.cursor = run.cursor + 1;
            dispatch(run)
        },
        (Phase::Finished, _) => Step::Finished,
        _ => Step::Rejected,
    }
}

} // verus!
