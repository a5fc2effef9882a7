//! What holds of the pipeline as a whole, proved from the definitions that
//! its contracts are stated in.

use vstd::prelude::*;
use crate::context::ApplyEnvView;
use crate::kv::{
    increments_reversible_at,
    lemma_revert_exact_at,
    lemma_revert_keeps_gas_at,
    lemma_revert_restores_at,
    write_effect,
    writes_effect,
    Write,
};
use crate::mutation::{agree_at, cell};
use crate::pipeline::{
    bound_result,
    current_action,
    dispatch_from,
    enter_action,
    enter_tx,
    next,
    no_actions,
    ok,
    precharged,
    recorded,
    routes_to_vm,
    settled,
    settled_failed,
    settled_ok,
    well_formed,
    Event,
    Outcome,
    Phase,
    RunView,
    Step,
    TxView,
};
use crate::registry::builtin_of;

verus! {

/// One result per transaction. A run that is finished holds as many results
/// as the entry has transactions; a run in the dispatcher holds one for
/// each transaction before the current one. Result `i` is that of
/// transaction `i`: where the transaction has no actions it is
/// `"no_actions"`, and where its action names no handler it is
/// `"invalid_bic_action"`.
pub proof fn lemma_one_result_per_transaction(r: RunView)
    requires
        well_formed(r),
    ensures
        r.phase is Finished ==> r.env.results.len() == r.txs.len(),
        (r.phase is Validating || r.phase is Probing || r.phase is Running)
            ==> r.env.results.len() == r.cursor,
        forall|i: int|
            0 <= i < r.env.results.len() && (#[trigger] r.txs[i]).actions.len() == 0
                ==> r.env.results[i] == no_actions(),
        forall|i: int|
            0 <= i < r.env.results.len() && bound_result(#[trigger] r.txs[i]) is Some
                ==> r.env.results[i] == bound_result(r.txs[i])->0,
{
}

/// A transaction without actions gets `"no_actions"` and nothing else: the
/// dispatcher passes over it with the contract state, every journal and
/// both logs as they were.
pub proof fn lemma_no_actions_leaves_state(r: RunView)
    requires
        r.cursor < r.txs.len(),
        r.txs[r.cursor as int].actions.len() == 0,
    ensures
        ({
            let entered = ApplyEnvView {
                caller: enter_tx(r.env.caller, r.cursor, r.txs[r.cursor as int]),
                ..r.env
            };
            let after = RunView { env: recorded(entered, no_actions()), cursor: r.cursor + 1, ..r };
            &&& dispatch_from(r) == dispatch_from(after)
            &&& after.env.results == r.env.results.push(no_actions())
            &&& after.env.store == r.env.store
            &&& after.env.muts_final == r.env.muts_final
            &&& after.env.muts_final_rev == r.env.muts_final_rev
            &&& after.env.muts == r.env.muts
            &&& after.env.muts_rev == r.env.muts_rev
            &&& after.env.muts_gas == r.env.muts_gas
            &&& after.env.muts_rev_gas == r.env.muts_rev_gas
        }),
{
}

/// Writes touch nothing but the contract state and the journals of the
/// current action.
pub proof fn lemma_writes_frame(e: ApplyEnvView, ws: Seq<Write>)
    ensures
        writes_effect(e, ws).caller == e.caller,
        writes_effect(e, ws).muts_final == e.muts_final,
        writes_effect(e, ws).muts_final_rev == e.muts_final_rev,
        writes_effect(e, ws).results == e.results,
    decreases ws.len(),
{
    if ws.len() > 0 {
        lemma_writes_frame(e, ws.drop_last());
        let e1 = writes_effect(e, ws.drop_last());
        assert(writes_effect(e, ws) == write_effect(e1, ws.last()));
    }
}

/// A failed action leaves no business effect. Let an action start with an
/// empty reverse journal and make any writes before it fails. Once it is
/// settled, the entry's logs have gained its gas journal and nothing else.
/// In the contract state, every cell that no gas increment was made to
/// agrees with the cell as the action found it (it is as it was, or reads as
/// the number it read as before), and is that very cell where the action's
/// increments of it are reversible to the byte; every cell that no business
/// write was made to is as the action left it.
pub proof fn lemma_failed_action_leaves_state(
    e: ApplyEnvView,
    ws: Seq<Write>,
    tag: Seq<char>,
    key: Seq<u8>,
)
    requires
        e.muts_rev.len() == 0,
    ensures
        settled_failed(writes_effect(e, ws), tag).muts_final == e.muts_final + writes_effect(
            e,
            ws,
        ).muts_gas,
        settled_failed(writes_effect(e, ws), tag).muts_final_rev == e.muts_final_rev
            + writes_effect(e, ws).muts_rev_gas,
        settled_failed(writes_effect(e, ws), tag).results == e.results.push(tag),
        (forall|i: int| 0 <= i < ws.len() && #[trigger] ws[i] is GasIncrement ==> ws[i].key() != key)
            ==> agree_at(settled_failed(writes_effect(e, ws), tag).store, e.store, key),
        (forall|i: int|
            0 <= i < ws.len() && !(#[trigger] ws[i] is GasIncrement) ==> ws[i].key() != key)
            ==> cell(settled_failed(writes_effect(e, ws), tag).store, key) == cell(
            writes_effect(e, ws).store,
            key,
        ),
        (forall|i: int| 0 <= i < ws.len() && #[trigger] ws[i] is GasIncrement ==> ws[i].key() != key)
            && increments_reversible_at(e, ws, key) ==> cell(
            settled_failed(writes_effect(e, ws), tag).store,
            key,
        ) == cell(e.store, key),
{
    lemma_writes_frame(e, ws);
    if (forall|i: int| 0 <= i < ws.len() && #[trigger] ws[i] is GasIncrement ==> ws[i].key() != key)
        && increments_reversible_at(e, ws, key) {
        lemma_revert_exact_at(e, ws, key);
    }
    if forall|i: int| 0 <= i < ws.len() && #[trigger] ws[i] is GasIncrement ==> ws[i].key() != key {
        lemma_revert_restores_at(e, ws, key);
    }
    if forall|i: int|
        0 <= i < ws.len() && !(#[trigger] ws[i] is GasIncrement) ==> ws[i].key() != key {
        lemma_revert_keeps_gas_at(e, ws, key);
    }
}

/// A successful action's writes all stand. Once it is settled, the entry's
/// logs have gained its business journal and then its gas journal, each in
/// the order in which it was written, and the contract state is as the
/// action left it.
pub proof fn lemma_successful_action_stands(e: ApplyEnvView, ws: Seq<Write>)
    ensures
        settled_ok(writes_effect(e, ws)).muts_final == e.muts_final + writes_effect(e, ws).muts
            + writes_effect(e, ws).muts_gas,
        settled_ok(writes_effect(e, ws)).muts_final_rev == e.muts_final_rev + writes_effect(
            e,
            ws,
        ).muts_rev + writes_effect(e, ws).muts_rev_gas,
        settled_ok(writes_effect(e, ws)).results == e.results.push(ok()),
        settled_ok(writes_effect(e, ws)).store == writes_effect(e, ws).store,
{
    lemma_writes_frame(e, ws);
}

/// What the pre-charge pass does for a transaction depends on its hash,
/// signer and nonce alone: not on its actions, and so not on how they end.
pub proof fn lemma_precharge_ignores_actions(e: ApplyEnvView, a: TxView, b: TxView)
    requires
        a.hash == b.hash,
        a.signer == b.signer,
        a.nonce == b.nonce,
    ensures
        precharged(e, a) == precharged(e, b),
{
}

/// What stands in the entry's logs stays there. However an action ends,
/// settling it only appends to the two logs: everything that the pre-charge
/// pass and earlier transactions have put there is kept, in place.
pub proof fn lemma_settling_keeps_logs(e: ApplyEnvView, outcome: Outcome)
    ensures
        e.muts_final.is_prefix_of(settled(e, outcome).muts_final),
        e.muts_final_rev.is_prefix_of(settled(e, outcome).muts_final_rev),
        e.results.is_prefix_of(settled(e, outcome).results),
{
    let s = settled(e, outcome);
    assert(s.muts_final.subrange(0, e.muts_final.len() as int) =~= e.muts_final);
    assert(s.muts_final_rev.subrange(0, e.muts_final_rev.len() as int) =~= e.muts_final_rev);
    assert(s.results.subrange(0, e.results.len() as int) =~= e.results);
}

/// Dispatch classification. Of a run that waits for the verdict on a
/// contract id, the next step is the bytecode check of the virtual-machine
/// path exactly where the id has the length of a public key and is a valid
/// one. Any other id goes to the built-in registry: to its handler, or to
/// the failure of the action where the registry has none.
pub proof fn lemma_dispatch_route(r: RunView, valid: bool)
    requires
        well_formed(r),
        r.phase is Validating,
    ensures
        routes_to_vm(current_action(r).contract, valid) ==> next(r, Event::KeyChecked(valid)) == (
            RunView { phase: Phase::Probing, ..r },
            Step::CheckBytecode,
        ),
        !routes_to_vm(current_action(r).contract, valid) ==> (match builtin_of(
            current_action(r).contract,
            current_action(r).function,
        ) {
            Some(handler) => next(r, Event::KeyChecked(valid)) == (
                RunView { phase: Phase::Running, ..r },
                Step::CallBuiltin(handler),
            ),
            None => next(r, Event::KeyChecked(valid)) == dispatch_from(
                RunView {
                    env: settled_failed(r.env, crate::registry::invalid_bic_action()),
                    cursor: r.cursor + 1,
                    ..r
                },
            ),
        }),
{
}

/// An id that has not the length of a public key is never taken for one.
/// The dispatcher hands its action to the built-in registry at once: to its
/// handler, or to the failure of the action where the registry has none.
pub proof fn lemma_other_ids_go_to_registry(r: RunView)
    requires
        r.cursor < r.txs.len(),
        r.txs[r.cursor as int].actions.len() > 0,
        current_action(r).contract.len() != 48,
    ensures
        ({
            let started = enter_action(
                ApplyEnvView {
                    caller: enter_tx(r.env.caller, r.cursor, r.txs[r.cursor as int]),
                    ..r.env
                },
                current_action(r).contract,
            );
            match builtin_of(current_action(r).contract, current_action(r).function) {
                Some(handler) => dispatch_from(r) == (
                    RunView { env: started, phase: Phase::Running, ..r },
                    Step::CallBuiltin(handler),
                ),
                None => dispatch_from(r) == dispatch_from(
                    RunView {
                        env: settled_failed(started, crate::registry::invalid_bic_action()),
                        cursor: r.cursor + 1,
                        ..r
                    },
                ),
            }
        }),
{
}

} // verus!
