//! The bridge between contract logic and the contract state: buffered
//! writes, buffered increments, and the reversal of an action's writes.
//!
//! Every write goes to the state at once and is journaled twice: forward, as
//! the mutation that was made, and in reverse, as the mutation that takes it
//! back. Business writes go to `muts` / `muts_rev`, cost accounting to
//! `muts_gas` / `muts_rev_gas`.

use vstd::prelude::*;
use crate::bytes::copy_bytes;
use crate::context::{ApplyEnv, ApplyEnvView};
use crate::decimal::{decimal, lemma_parse_decimal_of_decimal, to_decimal};
use crate::mutation::{
    agree,
    agree_at,
    apply,
    cell,
    cell_number,
    fits_i128,
    key_of,
    lemma_undo_agree_at,
    lemma_undo_push,
    lemma_undo_untouched,
    read_number,
    restoring,
    restoring_mutation,
    undo,
    undo_log,
    Mutation,
    MutationView,
};
use crate::store::State;

verus! {

/// Why an increment was refused.
#[derive(Clone, Copy, Debug, PartialEq, Eq)]
pub enum KvError {
    /// The cell holds text that denotes no 128-bit integer.
    NotANumber,
    /// The sum, or the negated delta, is outside the 128-bit range.
    OutOfRange,
}

/// The execution state after a business write of `value` under `key`.
pub open spec fn put_effect(e: ApplyEnvView, key: Seq<u8>, value: Seq<u8>) -> ApplyEnvView {
    ApplyEnvView {
        store: e.store.insert(key, value),
        muts: e.muts.push(MutationView::Put { key, value }),
        muts_rev: e.muts_rev.push(restoring(e.store, key)),
        ..e
    }
}

/// Whether `delta` can be added to the cell at `key`: the cell holds a
/// number, the sum is in range, and so is the delta that takes it back.
pub open spec fn can_increment(s: State, key: Seq<u8>, delta: int) -> bool {
    &&& cell_number(s, key) matches Some(n)
    &&& fits_i128(n + delta)
    &&& fits_i128(-delta)
}

/// The execution state after a business increment of the cell at `key`.
pub open spec fn increment_effect(e: ApplyEnvView, key: Seq<u8>, delta: int) -> ApplyEnvView {
    ApplyEnvView {
        store: apply(e.store, MutationView::Add { key, delta }),
        muts: e.muts.push(MutationView::Add { key, delta }),
        muts_rev: e.muts_rev.push(MutationView::Add { key, delta: -delta }),
        ..e
    }
}

/// The execution state after a cost-accounting increment of the cell at
/// `key`.
pub open spec fn gas_increment_effect(e: ApplyEnvView, key: Seq<u8>, delta: int) -> ApplyEnvView {
    ApplyEnvView {
        store: apply(e.store, MutationView::Add { key, delta }),
        muts_gas: e.muts_gas.push(MutationView::Add { key, delta }),
        muts_rev_gas: e.muts_rev_gas.push(MutationView::Add { key, delta: -delta }),
        ..e
    }
}

/// Reads the value stored under `key`.
pub fn kv_get(env: &ApplyEnv, key: &[u8]) -> (value: Option<Vec<u8>>)
    ensures
        match value {
            Some(v) => env@.store.contains_key(key@) && v@ == env@.store[key@],
            None => !env@.store.contains_key(key@),
        },
{
    env.store.get(key)
}

/// Stores `value` under `key` and journals the write and its reversal: the
/// previous value, or the removal of the key where there was none.
pub fn kv_put(env: &mut ApplyEnv, key: &[u8], value: &[u8])
    ensures
        final(env)@ == put_effect(old(env)@, key@, value@),
{
    let back = restoring_mutation(&env.store, key);
    let forth = Mutation::Put { key: copy_bytes(key), value: copy_bytes(value) };
    env.store.put(key, value);
    env.muts.push(forth);
    env.muts_rev.push(back);
    proof {
        assert(final(env)@.muts =~= old(env)@.muts.push(forth@));
        assert(final(env)@.muts_rev =~= old(env)@.muts_rev.push(back@));
    }
}

/// Adds `delta` to the number at `key` in the state alone, and returns the
/// sum. Nothing is journaled.
fn add_to_cell(env: &mut ApplyEnv, key: &[u8], delta: i128) -> (r: Result<i128, KvError>)
    ensures
        match r {
            Ok(sum) => can_increment(old(env)@.store, key@, delta as int) && cell_number(
                old(env)@.store,
                key@,
            ) == Some(sum - delta) && final(env)@ == (ApplyEnvView {
                store: apply(old(env)@.store, MutationView::Add { key: key@, delta: delta as int }),
                ..old(env)@
            }),
            Err(e) => !can_increment(old(env)@.store, key@, delta as int) && final(env)@ == old(
                env,
            )@ && (e == KvError::NotANumber <==> cell_number(old(env)@.store, key@) is None),
        },
{
    let n = match read_number(&env.store, key) {
        Some(n) => n,
        None => {
            return Err(KvError::NotANumber);
        },
    };
    if delta == i128::MIN {
        return Err(KvError::OutOfRange);
    }
    match n.checked_add(delta) {
        Some(sum) => {
            let text = to_decimal(sum);
            env.store.put(key, text.as_slice());
            Ok(sum)
        },
        None => Err(KvError::OutOfRange),
    }
}

/// Adds `delta` to the number stored at `key` and journals the increment
/// and its reversal. A missing cell counts as zero. The increment is
/// refused, and nothing changes, where the cell holds no number or the
/// result would leave the 128-bit range.
pub fn kv_increment(env: &mut ApplyEnv, key: &[u8], delta: i128) -> (r: Result<i128, KvError>)
    ensures
        match r {
            Ok(sum) => can_increment(old(env)@.store, key@, delta as int) && cell_number(
                old(env)@.store,
                key@,
            ) == Some(sum - delta) && final(env)@ == increment_effect(
                old(env)@,
                key@,
                delta as int,
            ),
            Err(e) => !can_increment(old(env)@.store, key@, delta as int) && final(env)@ == old(
                env,
            )@ && (e == KvError::NotANumber <==> cell_number(old(env)@.store, key@) is None),
        },
{
    let sum = match add_to_cell(env, key, delta) {
        Ok(sum) => sum,
        Err(e) => {
            return Err(e);
        },
    };
    let forth = Mutation::Add { key: copy_bytes(key), delta };
    let back = Mutation::Add { key: copy_bytes(key), delta: -delta };
    env.muts.push(forth);
    env.muts_rev.push(back);
    proof {
        assert(final(env)@.muts =~= old(env)@.muts.push(forth@));
        assert(final(env)@.muts_rev =~= old(env)@.muts_rev.push(back@));
    }
    Ok(sum)
}

/// Adds `delta` to the number stored at `key` on behalf of cost accounting:
/// as `kv_increment`, but journaled in the gas buffers, so that it stands
/// when the action's business writes are taken back.
pub fn kv_increment_gas(env: &mut ApplyEnv, key: &[u8], delta: i128) -> (r: Result<i128, KvError>)
    ensures
        match r {
            Ok(sum) => can_increment(old(env)@.store, key@, delta as int) && cell_number(
                old(env)@.store,
                key@,
            ) == Some(sum - delta) && final(env)@ == gas_increment_effect(
                old(env)@,
                key@,
                delta as int,
            ),
            Err(e) => !can_increment(old(env)@.store, key@, delta as int) && final(env)@ == old(
                env,
            )@ && (e == KvError::NotANumber <==> cell_number(old(env)@.store, key@) is None),
        },
{
    let sum = match add_to_cell(env, key, delta) {
        Ok(sum) => sum,
        Err(e) => {
            return Err(e);
        },
    };
    let forth = Mutation::Add { key: copy_bytes(key), delta };
    let back = Mutation::Add { key: copy_bytes(key), delta: -delta };
    env.muts_gas.push(forth);
    env.muts_rev_gas.push(back);
    proof {
        assert(final(env)@.muts_gas =~= old(env)@.muts_gas.push(forth@));
        assert(final(env)@.muts_rev_gas =~= old(env)@.muts_rev_gas.push(back@));
    }
    Ok(sum)
}

/// Takes back the current action's business writes: undoes `muts_rev` on
/// the state, newest first. The journals themselves are left as they are.
/// With an empty `muts_rev` nothing changes.
pub fn revert(env: &mut ApplyEnv)
    ensures
        final(env)@ == (ApplyEnvView {
            store: undo(old(env)@.store, old(env)@.muts_rev),
            ..old(env)@
        }),
        old(env)@.muts_rev.len() == 0 ==> final(env)@ == old(env)@,
{
    undo_log(&mut env.store, &env.muts_rev);
}

/// A write as contract logic makes it through the bridge.
pub enum Write {
    /// `kv_put`.
    Put { key: Seq<u8>, value: Seq<u8> },
    /// `kv_increment`.
    Increment { key: Seq<u8>, delta: int },
    /// `kv_increment_gas`.
    GasIncrement { key: Seq<u8>, delta: int },
}

impl Write {
    /// The key that the write is made to.
    pub open spec fn key(self) -> Seq<u8> {
        match self {
            Write::Put { key, .. } => key,
            Write::Increment { key, .. } => key,
            Write::GasIncrement { key, .. } => key,
        }
    }
}

/// The execution state after one write. A refused increment changes
/// nothing.
pub open spec fn write_effect(e: ApplyEnvView, w: Write) -> ApplyEnvView {
    match w {
        Write::Put { key, value } => put_effect(e, key, value),
        Write::Increment { key, delta } => if can_increment(e.store, key, delta) {
            increment_effect(e, key, delta)
        } else {
            e
        },
        Write::GasIncrement { key, delta } => if can_increment(e.store, key, delta) {
            gas_increment_effect(e, key, delta)
        } else {
            e
        },
    }
}

/// The execution state after a run of writes, oldest first.
pub open spec fn writes_effect(e: ApplyEnvView, ws: Seq<Write>) -> ApplyEnvView
    decreases ws.len(),
{
    if ws.len() == 0 {
        e
    } else {
        write_effect(writes_effect(e, ws.drop_last()), ws.last())
    }
}

/// Agreement at a key is transitive.
pub proof fn lemma_agree_at_trans(a: State, b: State, c: State, key: Seq<u8>)
    requires
        agree_at(a, b, key),
        agree_at(b, c, key),
    ensures
        agree_at(a, c, key),
{
}

/// What one write does to the reverse journal and to undoing it. A business
/// write adds the mutation that takes it back: applied to the state after
/// the write, it gives a state that agrees with the state before, and after
/// a `Put` that very state. Any other write leaves the reverse journal as
/// it is, and the state as it is at every key but its own.
pub proof fn lemma_write_undone(e: ApplyEnvView, w: Write)
    ensures
        write_effect(e, w).muts_rev != e.muts_rev ==> {
            &&& write_effect(e, w).muts_rev.len() == e.muts_rev.len() + 1
            &&& write_effect(e, w).muts_rev.drop_last() == e.muts_rev
            &&& key_of(write_effect(e, w).muts_rev.last()) == w.key()
            &&& !(w is GasIncrement)
            &&& agree(apply(write_effect(e, w).store, write_effect(e, w).muts_rev.last()), e.store)
            &&& w is Put ==> apply(write_effect(e, w).store, write_effect(e, w).muts_rev.last())
                == e.store
        },
        write_effect(e, w).muts_rev == e.muts_rev ==> forall|k: Seq<u8>|
            k != w.key() ==> cell(write_effect(e, w).store, k) == cell(e.store, k),
        write_effect(e, w).muts_rev == e.muts_rev && !(w is GasIncrement) ==> write_effect(e, w)
            == e,
{
    let e2 = write_effect(e, w);
    match w {
        Write::Put { key, value } => {
            assert(e2.muts_rev.drop_last() =~= e.muts_rev);
            assert(e2.muts_rev.last() == restoring(e.store, key));
            assert(apply(e2.store, e2.muts_rev.last()) =~= e.store);
            assert forall|k: Seq<u8>| #[trigger] agree_at(e.store, e.store, k) by {}
        },
        Write::Increment { key, delta } => {
            if can_increment(e.store, key, delta) {
                let n = cell_number(e.store, key).unwrap();
                lemma_parse_decimal_of_decimal(n + delta);
                lemma_parse_decimal_of_decimal(n);
                let back = apply(e2.store, e2.muts_rev.last());
                assert(e2.muts_rev.drop_last() =~= e.muts_rev);
                assert(cell_number(e2.store, key) == Some(n + delta));
                assert(back == e2.store.insert(key, decimal(n)));
                assert forall|k: Seq<u8>| #[trigger] agree_at(back, e.store, k) by {}
            }
        },
        Write::GasIncrement { key, delta } => {},
    }
}

/// Reversal and one key. After any run of writes of which no gas increment
/// is made to `key`, undoing the reverse journal leaves at `key` what undoing
/// the journal as it was before the writes would have left, up to agreement.
pub proof fn lemma_writes_undone_at(e: ApplyEnvView, ws: Seq<Write>, key: Seq<u8>)
    requires
        forall|i: int| 0 <= i < ws.len() && #[trigger] ws[i] is GasIncrement ==> ws[i].key() != key,
    ensures
        agree_at(
            undo(writes_effect(e, ws).store, writes_effect(e, ws).muts_rev),
            undo(e.store, e.muts_rev),
            key,
        ),
    decreases ws.len(),
{
    if ws.len() > 0 {
        let w = ws.last();
        let e1 = writes_effect(e, ws.drop_last());
        let e2 = write_effect(e1, w);
        assert forall|i: int| 0 <= i < ws.drop_last().len() && #[trigger] ws.drop_last()[i]
            is GasIncrement implies ws.drop_last()[i].key() != key by {
            assert(ws.drop_last()[i] == ws[i]);
        }
        lemma_writes_undone_at(e, ws.drop_last(), key);
        lemma_write_undone(e1, w);
        if e2.muts_rev != e1.muts_rev {
            let back = apply(e2.store, e2.muts_rev.last());
            assert(agree_at(back, e1.store, key));
            lemma_undo_agree_at(back, e1.store, e1.muts_rev, key);
        } else if w is GasIncrement {
            assert(w.key() != key);
            assert(cell(e2.store, key) == cell(e1.store, key));
            lemma_undo_agree_at(e2.store, e1.store, e1.muts_rev, key);
        }
        lemma_agree_at_trans(
            undo(e2.store, e2.muts_rev),
            undo(e1.store, e1.muts_rev),
            undo(e.store, e.muts_rev),
            key,
        );
    }
}

/// The reverse journal names only keys that business writes were made to.
pub proof fn lemma_reverse_journal_keys(e: ApplyEnvView, ws: Seq<Write>, key: Seq<u8>)
    requires
        forall|i: int| 0 <= i < e.muts_rev.len() ==> key_of(#[trigger] e.muts_rev[i]) != key,
        forall|i: int|
            0 <= i < ws.len() && !(#[trigger] ws[i] is GasIncrement) ==> ws[i].key() != key,
    ensures
        forall|i: int|
            0 <= i < writes_effect(e, ws).muts_rev.len() ==> key_of(
                #[trigger] writes_effect(e, ws).muts_rev[i],
            ) != key,
    decreases ws.len(),
{
    if ws.len() > 0 {
        let w = ws.last();
        let e1 = writes_effect(e, ws.drop_last());
        let e2 = write_effect(e1, w);
        assert forall|i: int| 0 <= i < ws.drop_last().len() && !(#[trigger] ws.drop_last()[i]
            is GasIncrement) implies ws.drop_last()[i].key() != key by {
            assert(ws.drop_last()[i] == ws[i]);
        }
        lemma_reverse_journal_keys(e, ws.drop_last(), key);
        lemma_write_undone(e1, w);
        assert forall|i: int| 0 <= i < e2.muts_rev.len() implies key_of(
            #[trigger] e2.muts_rev[i],
        ) != key by {
            if e2.muts_rev != e1.muts_rev && i < e1.muts_rev.len() {
                assert(e2.muts_rev[i] == e2.muts_rev.drop_last()[i]);
            }
        }
    }
}

/// Reversal restores what business writes changed. Let an action start with
/// an empty reverse journal and make any writes. At every key that none of
/// its gas increments is made to, undoing the reverse journal leaves a cell
/// that agrees with the cell as the action found it: it is as it was, or
/// reads as the number it read as before.
pub proof fn lemma_revert_restores_at(e: ApplyEnvView, ws: Seq<Write>, key: Seq<u8>)
    requires
        e.muts_rev.len() == 0,
        forall|i: int| 0 <= i < ws.len() && #[trigger] ws[i] is GasIncrement ==> ws[i].key() != key,
    ensures
        agree_at(undo(writes_effect(e, ws).store, writes_effect(e, ws).muts_rev), e.store, key),
{
    lemma_writes_undone_at(e, ws, key);
}

/// Reversal leaves what gas increments changed. Let an action start with an
/// empty reverse journal and make any writes. At every key that none of its
/// business writes is made to, undoing the reverse journal changes nothing.
pub proof fn lemma_revert_keeps_gas_at(e: ApplyEnvView, ws: Seq<Write>, key: Seq<u8>)
    requires
        e.muts_rev.len() == 0,
        forall|i: int|
            0 <= i < ws.len() && !(#[trigger] ws[i] is GasIncrement) ==> ws[i].key() != key,
    ensures
        cell(undo(writes_effect(e, ws).store, writes_effect(e, ws).muts_rev), key) == cell(
            writes_effect(e, ws).store,
            key,
        ),
{
    lemma_reverse_journal_keys(e, ws, key);
    lemma_undo_untouched(writes_effect(e, ws).store, writes_effect(e, ws).muts_rev, key);
}

/// Whether the cell at `key` holds a number as canonical decimal text.
pub open spec fn canonical_at(s: State, key: Seq<u8>) -> bool {
    cell_number(s, key) matches Some(n) && cell(s, key) == Some(decimal(n))
}

/// Whether a reverse journal holds a mutation that sets or removes `key`
/// outright, as the reversal of a put does.
pub open spec fn resets(rev: Seq<MutationView>, key: Seq<u8>) -> bool {
    exists|i: int| 0 <= i < rev.len() && key_of(#[trigger] rev[i]) == key && !(rev[i] is Add)
}

/// Whether reversal can give back, to the byte, what every increment of
/// `key` among the writes finds there: each finds a cell that holds
/// canonical text, or one whose content an earlier put has journaled.
pub open spec fn increments_reversible_at(e: ApplyEnvView, ws: Seq<Write>, key: Seq<u8>) -> bool {
    forall|i: int|
        0 <= i < ws.len() && #[trigger] ws[i] is Increment && ws[i].key() == key ==> canonical_at(
            writes_effect(e, ws.take(i)).store,
            key,
        ) || resets(writes_effect(e, ws.take(i)).muts_rev, key)
}

/// Undoing a log leaves the same cell at `key` in two states that hold the
/// same cell there, and in two states that agree there if the log resets
/// the key.
pub proof fn lemma_undo_same_at(a: State, b: State, rev: Seq<MutationView>, key: Seq<u8>)
    requires
        cell(a, key) == cell(b, key) || (agree_at(a, b, key) && resets(rev, key)),
    ensures
        cell(undo(a, rev), key) == cell(undo(b, rev), key),
    decreases rev.len(),
{
    if rev.len() > 0 {
        let m = rev.last();
        let a2 = apply(a, m);
        let b2 = apply(b, m);
        if cell(a, key) == cell(b, key) {
            assert(cell(a2, key) == cell(b2, key));
        } else {
            let i = choose|i: int|
                0 <= i < rev.len() && key_of(#[trigger] rev[i]) == key && !(rev[i] is Add);
            if i == rev.len() - 1 {
                assert(cell(a2, key) == cell(b2, key));
            } else {
                assert(rev.drop_last()[i] == rev[i]);
                assert(agree_at(a2, b2, key));
                assert(resets(rev.drop_last(), key));
            }
        }
        lemma_undo_same_at(a2, b2, rev.drop_last(), key);
    }
}

/// Exact reversal at one key, from any journal. After a run of writes of
/// which no gas increment is made to `key`, and whose increments of `key`
/// are reversible to the byte, undoing the reverse journal leaves at `key`
/// the very cell that undoing the journal as it was before the writes would
/// have left.
pub proof fn lemma_writes_undone_exactly_at(e: ApplyEnvView, ws: Seq<Write>, key: Seq<u8>)
    requires
        forall|i: int| 0 <= i < ws.len() && #[trigger] ws[i] is GasIncrement ==> ws[i].key() != key,
        increments_reversible_at(e, ws, key),
    ensures
        cell(undo(writes_effect(e, ws).store, writes_effect(e, ws).muts_rev), key) == cell(
            undo(e.store, e.muts_rev),
            key,
        ),
    decreases ws.len(),
{
    if ws.len() > 0 {
        let w = ws.last();
        let rest = ws.drop_last();
        let e1 = writes_effect(e, rest);
        let e2 = write_effect(e1, w);
        assert(ws.take(ws.len() - 1) =~= rest);
        assert forall|i: int| 0 <= i < rest.len() && #[trigger] rest[i] is GasIncrement implies rest[i].key()
            != key by {
            assert(rest[i] == ws[i]);
        }
        assert(increments_reversible_at(e, rest, key)) by {
            assert forall|i: int|
                0 <= i < rest.len() && #[trigger] rest[i] is Increment && rest[i].key()
                    == key implies canonical_at(writes_effect(e, rest.take(i)).store, key)
                || resets(writes_effect(e, rest.take(i)).muts_rev, key) by {
                assert(rest[i] == ws[i]);
                assert(rest.take(i) =~= ws.take(i));
            }
        }
        lemma_writes_undone_exactly_at(e, rest, key);
        lemma_write_undone(e1, w);
        if e2.muts_rev != e1.muts_rev {
            let back = apply(e2.store, e2.muts_rev.last());
            match w {
                Write::Put { .. } => {},
                Write::Increment { key: written, delta } => {
                    let n = cell_number(e1.store, written).unwrap();
                    lemma_parse_decimal_of_decimal(n + delta);
                    assert(back == e2.store.insert(written, decimal(n)));
                    if written == key {
                        assert(ws[ws.len() - 1] is Increment);
                        assert(canonical_at(e1.store, key) || resets(e1.muts_rev, key));
                        assert(agree_at(back, e1.store, key));
                    }
                },
                Write::GasIncrement { .. } => {},
            }
            lemma_undo_same_at(back, e1.store, e1.muts_rev, key);
        } else {
            lemma_undo_same_at(e2.store, e1.store, e1.muts_rev, key);
        }
    }
}

/// Reversal is exact. Let an action start with an empty reverse journal
/// and make any writes. At every key that none of its gas increments is
/// made to, and whose increments are reversible to the byte, undoing the
/// reverse journal leaves the very cell that the action found: the same
/// bytes, or no cell where there was none.
pub proof fn lemma_revert_exact_at(e: ApplyEnvView, ws: Seq<Write>, key: Seq<u8>)
    requires
        e.muts_rev.len() == 0,
        forall|i: int| 0 <= i < ws.len() && #[trigger] ws[i] is GasIncrement ==> ws[i].key() != key,
        increments_reversible_at(e, ws, key),
    ensures
        cell(undo(writes_effect(e, ws).store, writes_effect(e, ws).muts_rev), key) == cell(
            e.store,
            key,
        ),
{
    lemma_writes_undone_exactly_at(e, ws, key);
}

/// Reversal restores the state. Where an action makes business writes
/// only, undoing its reverse journal returns the whole state to one that
/// agrees with the state in which the action began.
pub proof fn lemma_revert_restores(e: ApplyEnvView, ws: Seq<Write>)
    requires
        e.muts_rev.len() == 0,
        forall|i: int| 0 <= i < ws.len() ==> !(#[trigger] ws[i] is GasIncrement),
    ensures
        agree(undo(writes_effect(e, ws).store, writes_effect(e, ws).muts_rev), e.store),
{
    assert forall|k: Seq<u8>| #[trigger]
        agree_at(undo(writes_effect(e, ws).store, writes_effect(e, ws).muts_rev), e.store, k) by {
        lemma_revert_restores_at(e, ws, k);
    }
}

/// Where an action only puts, reversal restores the very state in which it
/// began.
pub proof fn lemma_revert_exact_for_puts(e: ApplyEnvView, ws: Seq<Write>)
    requires
        forall|i: int| 0 <= i < ws.len() ==> #[trigger] ws[i] is Put,
    ensures
        undo(writes_effect(e, ws).store, writes_effect(e, ws).muts_rev) == undo(
            e.store,
            e.muts_rev,
        ),
    decreases ws.len(),
{
    if ws.len() > 0 {
        let e1 = writes_effect(e, ws.drop_last());
        let e2 = write_effect(e1, ws.last());
        assert(ws.last() is Put);
        assert forall|i: int| 0 <= i < ws.drop_last().len() implies #[trigger] ws.drop_last()[i]
            is Put by {
            assert(ws.drop_last()[i] == ws[i]);
        }
        lemma_revert_exact_for_puts(e, ws.drop_last());
        lemma_write_undone(e1, ws.last());
        lemma_undo_push(e2.store, e1.muts_rev, e2.muts_rev.last());
        assert(e2.muts_rev =~= e1.muts_rev.push(e2.muts_rev.last()));
    }
}

} // verus!
