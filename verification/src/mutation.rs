//! Buffered state changes and what they do to the state.
//!
//! Every change to the state is recorded as a `Mutation` together with the
//! mutation that takes it back. A log of the second kind, undone newest
//! first, returns the state to where it was.

use vstd::prelude::*;
use crate::bytes::copy_bytes;
use crate::decimal::{decimal, parse_i128, parse_i128_spec, to_decimal};
use crate::store::{KvStore, State};

verus! {

/// One buffered change to the state.
#[derive(Clone, Debug, PartialEq, Eq)]
pub enum Mutation {
    /// Set `key` to `value`.
    Put { key: Vec<u8>, value: Vec<u8> },
    /// Remove `key`.
    Delete { key: Vec<u8> },
    /// Add `delta` to the number stored at `key`.
    Add { key: Vec<u8>, delta: i128 },
}

/// A mutation as a mathematical value.
pub enum MutationView {
    Put { key: Seq<u8>, value: Seq<u8> },
    Delete { key: Seq<u8> },
    Add { key: Seq<u8>, delta: int },
}

impl DeepView for Mutation {
    type V = MutationView;

    open spec fn deep_view(&self) -> MutationView {
        match *self {
            Mutation::Put { key, value } => MutationView::Put { key: key@, value: value@ },
            Mutation::Delete { key } => MutationView::Delete { key: key@ },
            Mutation::Add { key, delta } => MutationView::Add { key: key@, delta: delta as int },
        }
    }
}

impl View for Mutation {
    type V = MutationView;

    open spec fn view(&self) -> MutationView {
        self.deep_view()
    }
}

/// Whether `v` is a 128-bit signed integer.
pub open spec fn fits_i128(v: int) -> bool {
    i128::MIN <= v <= i128::MAX
}

/// The number that the cell at `key` holds: zero for a missing cell, the
/// number its text denotes for a cell that holds one, and nothing otherwise.
pub open spec fn cell_number(s: State, key: Seq<u8>) -> Option<int> {
    if s.contains_key(key) {
        match parse_i128_spec(s[key]) {
            Some(v) => Some(v as int),
            None => None,
        }
    } else {
        Some(0)
    }
}

/// The state after one mutation. Adding to a cell that holds no number, or
/// past the 128-bit range, leaves the state as it is.
pub open spec fn apply(s: State, m: MutationView) -> State {
    match m {
        MutationView::Put { key, value } => s.insert(key, value),
        MutationView::Delete { key } => s.remove(key),
        MutationView::Add { key, delta } => match cell_number(s, key) {
            Some(n) => if fits_i128(n + delta) {
                s.insert(key, decimal(n + delta))
            } else {
                s
            },
            None => s,
        },
    }
}

/// The state after undoing a reverse log: its newest mutation is applied
/// first, its oldest last.
pub open spec fn undo(s: State, rev: Seq<MutationView>) -> State
    decreases rev.len(),
{
    if rev.len() == 0 {
        s
    } else {
        undo(apply(s, rev.last()), rev.drop_last())
    }
}

/// The mutation that restores what `s` holds at `key`.
pub open spec fn restoring(s: State, key: Seq<u8>) -> MutationView {
    if s.contains_key(key) {
        MutationView::Put { key, value: s[key] }
    } else {
        MutationView::Delete { key }
    }
}

/// What a state holds at `key`, if anything.
pub open spec fn cell(s: State, key: Seq<u8>) -> Option<Seq<u8>> {
    if s.contains_key(key) {
        Some(s[key])
    } else {
        None
    }
}

/// The key that a mutation changes.
pub open spec fn key_of(m: MutationView) -> Seq<u8> {
    match m {
        MutationView::Put { key, .. } => key,
        MutationView::Delete { key } => key,
        MutationView::Add { key, .. } => key,
    }
}

/// Two states agree at a key when the cell is the same in both, or reads as
/// the same number in both.
pub open spec fn agree_at(a: State, b: State, key: Seq<u8>) -> bool {
    cell(a, key) == cell(b, key) || (cell_number(a, key) is Some && cell_number(a, key)
        == cell_number(b, key))
}

/// Two states agree when they agree at every key.
pub open spec fn agree(a: State, b: State) -> bool {
    forall|k: Seq<u8>| #[trigger] agree_at(a, b, k)
}

/// The number stored at `key`, as `cell_number` defines it.
pub fn read_number(store: &KvStore, key: &[u8]) -> (n: Option<i128>)
    ensures
        match n {
            Some(v) => cell_number(store@, key@) == Some(v as int),
            None => cell_number(store@, key@) is None,
        },
{
    match store.get(key) {
        Some(text) => parse_i128(text.as_slice()),
        None => Some(0),
    }
}

/// The mutation that restores what `store` holds at `key`.
pub fn restoring_mutation(store: &KvStore, key: &[u8]) -> (m: Mutation)
    ensures
        m@ == restoring(store@, key@),
{
    match store.get(key) {
        Some(value) => Mutation::Put { key: copy_bytes(key), value },
        None => Mutation::Delete { key: copy_bytes(key) },
    }
}

/// Applies one mutation to the state.
pub fn apply_mutation(store: &mut KvStore, m: &Mutation)
    ensures
        final(store)@ == apply(old(store)@, m@),
{
    match m {
        Mutation::Put { key, value } => {
            store.put(key.as_slice(), value.as_slice());
        },
        Mutation::Delete { key } => {
            store.delete(key.as_slice());
        },
        Mutation::Add { key, delta } => {
            match read_number(store, key.as_slice()) {
                Some(n) => {
                    match n.checked_add(*delta) {
                        Some(sum) => {
                            let text = to_decimal(sum);
                            store.put(key.as_slice(), text.as_slice());
                        },
                        None => {},
                    }
                },
                None => {},
            }
        },
    }
}

/// Undoes a reverse log on the state, newest mutation first.
pub fn undo_log(store: &mut KvStore, rev: &Vec<Mutation>)
    ensures
        final(store)@ == undo(old(store)@, rev.deep_view()),
{
    let mut i: usize = rev.len();
    assert(rev.deep_view().subrange(0, i as int) =~= rev.deep_view());
    while i > 0
        invariant
            i <= rev@.len(),
            undo(store@, rev.deep_view().subrange(0, i as int)) == undo(
                old(store)@,
                rev.deep_view(),
            ),
        decreases i,
    {
        let ghost head = rev.deep_view().subrange(0, i as int);
        i -= 1;
        apply_mutation(store, &rev[i]);
        proof {
            assert(head.last() == rev@[i as int]@);
            assert(head.drop_last() =~= rev.deep_view().subrange(0, i as int));
        }
    }
    proof {
        assert(rev.deep_view().subrange(0, 0).len() == 0);
    }
}

/// Undoing an empty log changes nothing.
pub proof fn lemma_undo_nothing(s: State)
    ensures
        undo(s, Seq::<MutationView>::empty()) == s,
{
}

/// Undoing a log with one more mutation starts with that mutation.
pub proof fn lemma_undo_push(s: State, rev: Seq<MutationView>, m: MutationView)
    ensures
        undo(s, rev.push(m)) == undo(apply(s, m), rev),
{
    assert(rev.push(m).drop_last() =~= rev);
}

/// States that agree at a key still agree there after the same mutation.
pub proof fn lemma_apply_agree_at(a: State, b: State, m: MutationView, key: Seq<u8>)
    requires
        agree_at(a, b, key),
    ensures
        agree_at(apply(a, m), apply(b, m), key),
{
}

/// States that agree at a key still agree there after undoing the same log.
pub proof fn lemma_undo_agree_at(a: State, b: State, rev: Seq<MutationView>, key: Seq<u8>)
    requires
        agree_at(a, b, key),
    ensures
        agree_at(undo(a, rev), undo(b, rev), key),
    decreases rev.len(),
{
    if rev.len() > 0 {
        lemma_apply_agree_at(a, b, rev.last(), key);
        lemma_undo_agree_at(apply(a, rev.last()), apply(b, rev.last()), rev.drop_last(), key);
    }
}

/// Undoing a log leaves every cell alone that none of its mutations names.
pub proof fn lemma_undo_untouched(s: State, rev: Seq<MutationView>, key: Seq<u8>)
    requires
        forall|i: int| 0 <= i < rev.len() ==> key_of(#[trigger] rev[i]) != key,
    ensures
        cell(undo(s, rev), key) == cell(s, key),
    decreases rev.len(),
{
    if rev.len() > 0 {
        assert(key_of(rev.last()) != key);
        lemma_undo_untouched(apply(s, rev.last()), rev.drop_last(), key);
    }
}

} // verus!
