//! The contract-state partition as the pipeline sees it: byte-string keys
//! mapped to byte-string values.

use vstd::prelude::*;
use crate::bytes::{bytes_eq, copy_bytes};

verus! {

/// What the state holds: a finite map from keys to values.
pub type State = Map<Seq<u8>, Seq<u8>>;

/// One key with the value stored under it.
#[derive(Debug)]
pub struct Cell {
    key: Vec<u8>,
    value: Vec<u8>,
}

/// The state that one entry is applied to. No key occurs twice.
#[derive(Debug)]
pub struct KvStore {
    cells: Vec<Cell>,
}

/// Whether no two cells share a key.
pub closed spec fn distinct_keys(cells: Seq<Cell>) -> bool {
    forall|i: int, j: int|
        0 <= i < j < cells.len() ==> (#[trigger] cells[i]).key@ != (#[trigger] cells[j]).key@
}

/// Whether some cell holds `key`.
pub closed spec fn has_key(cells: Seq<Cell>, key: Seq<u8>) -> bool {
    exists|i: int| 0 <= i < cells.len() && (#[trigger] cells[i]).key@ == key
}

/// The index of a cell that holds `key`.
pub closed spec fn index_of(cells: Seq<Cell>, key: Seq<u8>) -> int {
    choose|i: int| 0 <= i < cells.len() && (#[trigger] cells[i]).key@ == key
}

/// The map that a list of cells stands for.
pub closed spec fn cells_map(cells: Seq<Cell>) -> State {
    Map::new(|k: Seq<u8>| has_key(cells, k), |k: Seq<u8>| cells[index_of(cells, k)].value@)
}

proof fn lemma_cell_in_map(cells: Seq<Cell>, i: int)
    requires
        distinct_keys(cells),
        0 <= i < cells.len(),
    ensures
        cells_map(cells).contains_key(cells[i].key@),
        cells_map(cells)[cells[i].key@] == cells[i].value@,
{
    let k = cells[i].key@;
    assert(has_key(cells, k));
    let j = index_of(cells, k);
    assert(j == i) by {
        if j < i {
            assert(cells[j].key@ != cells[i].key@);
        } else if i < j {
            assert(cells[i].key@ != cells[j].key@);
        }
    }
}

impl View for KvStore {
    type V = State;

    closed spec fn view(&self) -> State {
        cells_map(self.cells@)
    }
}

impl KvStore {
    #[verifier::type_invariant]
    closed spec fn well_formed(self) -> bool {
        distinct_keys(self.cells@)
    }

    /// A state that holds nothing.
    pub fn new() -> (store: KvStore)
        ensures
            store@ == Map::<Seq<u8>, Seq<u8>>::empty(),
    {
        let store = KvStore { cells: Vec::new() };
        assert(store@ =~= Map::<Seq<u8>, Seq<u8>>::empty());
        store
    }

    /// Where `key` is held, if anywhere.
    fn position(&self, key: &[u8]) -> (found: Option<usize>)
        ensures
            match found {
                Some(i) => i < self.cells@.len() && self.cells@[i as int].key@ == key@,
                None => !has_key(self.cells@, key@),
            },
    {
        let mut i: usize = 0;
        while i < self.cells.len()
            invariant
                i <= self.cells@.len(),
                forall|j: int| 0 <= j < i ==> (#[trigger] self.cells@[j]).key@ != key@,
            decreases self.cells@.len() - i,
        {
            if bytes_eq(self.cells[i].key.as_slice(), key) {
                return Some(i);
            }
            i += 1;
        }
        None
    }

    /// The value stored under `key`, if any.
    pub fn get(&self, key: &[u8]) -> (value: Option<Vec<u8>>)
        ensures
            match value {
                Some(v) => self@.contains_key(key@) && v@ == self@[key@],
                None => !self@.contains_key(key@),
            },
    {
        proof {
            use_type_invariant(self);
        }
        match self.position(key) {
            Some(i) => {
                proof {
                    lemma_cell_in_map(self.cells@, i as int);
                }
                Some(copy_bytes(self.cells[i].value.as_slice()))
            },
            None => None,
        }
    }

    /// Stores `value` under `key`, replacing what was there.
    pub fn put(&mut self, key: &[u8], value: &[u8])
        ensures
            final(self)@ == old(self)@.insert(key@, value@),
    {
        proof {
            use_type_invariant(&*self);
        }
        let cell = Cell { key: copy_bytes(key), value: copy_bytes(value) };
        let ghost before = self.cells@;
        match self.position(key) {
            Some(i) => {
                let mut cells: Vec<Cell> = Vec::new();
                core::mem::swap(&mut self.cells, &mut cells);
                cells[i] = cell;
                proof {
                    let after = cells@;
                    assert(distinct_keys(after)) by {
                        assert forall|a: int, b: int| 0 <= a < b < after.len() implies (
                        #[trigger] after[a]).key@ != (#[trigger] after[b]).key@ by {
                            assert(after[a].key@ == before[a].key@);
                            assert(after[b].key@ == before[b].key@);
                        }
                    }
                    assert(cells_map(after) =~= cells_map(before).insert(key@, value@)) by {
                        assert forall|k: Seq<u8>| has_key(after, k) == (has_key(before, k) || k
                            == key@) by {
                            if has_key(after, k) {
                                let j = index_of(after, k);
                                assert(before[j].key@ == after[j].key@);
                            }
                            if has_key(before, k) {
                                let j = index_of(before, k);
                                assert(after[j].key@ == before[j].key@);
                            }
                            if k == key@ {
                                assert(after[i as int].key@ == k);
                            }
                        }
                        assert forall|k: Seq<u8>| has_key(after, k) implies cells_map(after)[k]
                            == cells_map(before).insert(key@, value@)[k] by {
                            let j = index_of(after, k);
                            lemma_cell_in_map(after, j);
                            if j != i {
                                assert(after[j] == before[j]);
                                lemma_cell_in_map(before, j);
                            }
                        }
                    }
                }
                self.cells = cells;
            },
            None => {
                let mut cells: Vec<Cell> = Vec::new();
                core::mem::swap(&mut self.cells, &mut cells);
                cells.push(cell);
                proof {
                    let after = cells@;
                    let last = before.len() as int;
                    assert(distinct_keys(after)) by {
                        assert forall|a: int, b: int| 0 <= a < b < after.len() implies (
                        #[trigger] after[a]).key@ != (#[trigger] after[b]).key@ by {
                            assert(after[a] == before[a]);
                            if b < last {
                                assert(after[b] == before[b]);
                            } else {
                                assert(before[a].key@ != key@);
                            }
                        }
                    }
                    assert(cells_map(after) =~= cells_map(before).insert(key@, value@)) by {
                        assert forall|k: Seq<u8>| has_key(after, k) == (has_key(before, k) || k
                            == key@) by {
                            if has_key(after, k) {
                                let j = index_of(after, k);
                                if j < last {
                                    assert(before[j].key@ == k);
                                }
                            }
                            if has_key(before, k) {
                                let j = index_of(before, k);
                                assert(after[j].key@ == k);
                            }
                            if k == key@ {
                                assert(after[last].key@ == k);
                            }
                        }
                        assert forall|k: Seq<u8>| has_key(after, k) implies cells_map(after)[k]
                            == cells_map(before).insert(key@, value@)[k] by {
                            let j = index_of(after, k);
                            lemma_cell_in_map(after, j);
                            if j < last {
                                assert(after[j] == before[j]);
                                lemma_cell_in_map(before, j);
                            }
                        }
                    }
                }
                self.cells = cells;
            },
        }
    }

    /// Removes `key` and what is stored under it.
    pub fn delete(&mut self, key: &[u8])
        ensures
            final(self)@ == old(self)@.remove(key@),
    {
        proof {
            use_type_invariant(&*self);
        }
        let ghost before = self.cells@;
        match self.position(key) {
            Some(i) => {
                let mut cells: Vec<Cell> = Vec::new();
                core::mem::swap(&mut self.cells, &mut cells);
                let _ = cells.remove(i);
                proof {
                    let after = cells@;
                    assert forall|a: int| 0 <= a < after.len() implies #[trigger] after[a] == before[if a
                        < i {
                        a
                    } else {
                        a + 1
                    }] by {}
                    assert(distinct_keys(after)) by {
                        assert forall|a: int, b: int| 0 <= a < b < after.len() implies (
                        #[trigger] after[a]).key@ != (#[trigger] after[b]).key@ by {
                            let a0 = if a < i { a } else { a + 1 };
                            let b0 = if b < i { b } else { b + 1 };
                            assert(before[a0].key@ != before[b0].key@);
                        }
                    }
                    assert(cells_map(after) =~= cells_map(before).remove(key@)) by {
                        assert forall|k: Seq<u8>| has_key(after, k) == (has_key(before, k) && k
                            != key@) by {
                            if has_key(after, k) {
                                let j = index_of(after, k);
                                let j0 = if j < i { j } else { j + 1 };
                                assert(before[j0].key@ == k);
                                if k == key@ {
                                    if j0 < i {
                                        assert(before[j0].key@ != before[i as int].key@);
                                    } else {
                                        assert(before[i as int].key@ != before[j0].key@);
                                    }
                                }
                            }
                            if has_key(before, k) && k != key@ {
                                let j0 = index_of(before, k);
                                let j = if j0 < i { j0 } else { j0 - 1 };
                                assert(after[j].key@ == k);
                            }
                        }
                        assert forall|k: Seq<u8>| has_key(after, k) implies cells_map(after)[k]
                            == cells_map(before)[k] by {
                            let j = index_of(after, k);
                            let j0 = if j < i { j } else { j + 1 };
                            lemma_cell_in_map(after, j);
                            lemma_cell_in_map(before, j0);
                        }
                    }
                }
                self.cells = cells;
            },
            None => {
                assert(cells_map(before) =~= cells_map(before).remove(key@));
            },
        }
    }
}

} // verus!
