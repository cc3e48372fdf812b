//! The abstract state of a secret cell, the operations on it, and the laws
//! that hold of them.
//!
//! A cell is built once, read and cleared any number of times in any order,
//! and cleared a last time when it is released. The executable container
//! refines each operation of this model step by step.

use vstd::prelude::*;

verus! {

/// The two logical states of a cell.
pub enum Phase {
    /// The cell holds the text it was built with (which may be empty).
    Populated,
    /// The cell has been cleared; it holds the empty text.
    Cleared,
}

/// What a cell is at one point of its life.
pub struct CellState {
    /// The text a read would hand out.
    pub contents: Seq<char>,
    /// Whether a clear has happened yet.
    pub phase: Phase,
}

/// What a caller can do to a live cell.
pub enum Op {
    /// Copy the contents out.
    Read,
    /// Erase the contents.
    Clear,
}

impl CellState {
    /// The state of a cell freshly built from `initial`.
    pub open spec fn create(initial: Seq<char>) -> CellState {
        CellState { contents: initial, phase: Phase::Populated }
    }

    /// The text a read hands out. Reading leaves the state as it is.
    pub open spec fn read(self) -> Seq<char> {
        self.contents
    }

    /// The state after a clear, explicit or at the end of the cell's life.
    pub open spec fn clear(self) -> CellState {
        CellState { contents: Seq::empty(), phase: Phase::Cleared }
    }

    /// What holds of a cell at every point of its life: once cleared, it is
    /// empty.
    pub open spec fn inv(self) -> bool {
        self.phase is Cleared ==> self.contents == Seq::<char>::empty()
    }

    /// The state after one operation.
    pub open spec fn step(self, op: Op) -> CellState {
        match op {
            Op::Read => self,
            Op::Clear => self.clear(),
        }
    }

    /// The state after the operations of `ops`, first to last.
    pub open spec fn run(self, ops: Seq<Op>) -> CellState
        decreases ops.len(),
    {
        if ops.len() == 0 {
            self
        } else {
            self.run(ops.drop_last()).step(ops.last())
        }
    }
}

/// Building a cell keeps the text exactly: a read straight after hands back
/// what the cell was built with, whatever the text.
pub proof fn lemma_read_after_create(text: Seq<char>)
    ensures
        CellState::create(text).read() == text,
        CellState::create(text).inv(),
{
}

/// A cell that was built and then cleared reads as the empty text.
pub proof fn lemma_read_after_clear(text: Seq<char>)
    ensures
        CellState::create(text).clear().read() == Seq::<char>::empty(),
        CellState::create(text).clear().phase is Cleared,
        CellState::create(text).clear().inv(),
{
}

/// Clearing is idempotent: a second clear changes nothing, and a read after
/// one clear or after two hands out the empty text.
pub proof fn lemma_clear_idempotent(state: CellState)
    ensures
        state.clear().clear() == state.clear(),
        state.clear().read() == Seq::<char>::empty(),
        state.clear().clear().read() == Seq::<char>::empty(),
{
}

/// Clearing a cell that already reads as empty cannot be told from doing
/// nothing: a read hands out the empty text before and after.
pub proof fn lemma_clear_of_empty_unobservable(state: CellState)
    requires
        state.read() == Seq::<char>::empty(),
    ensures
        state.clear().read() == state.read(),
{
}

/// Cells are isolated: among any number of cells, clearing one empties that
/// one and leaves every other cell, and so what it reads as, untouched.
pub proof fn lemma_clear_isolated(cells: Seq<CellState>, target: int, other: int)
    requires
        0 <= target < cells.len(),
        0 <= other < cells.len(),
        other != target,
    ensures
        cells.update(target, cells[target].clear())[target].read() == Seq::<char>::empty(),
        cells.update(target, cells[target].clear())[other] == cells[other],
        cells.update(target, cells[target].clear())[other].read() == cells[other].read(),
{
}

/// There is no third state. Whatever reads and clears a cell has seen since it
/// was built from `initial`, it holds `initial` if none of them was a clear
/// and is cleared and empty if one was.
pub proof fn lemma_initial_or_cleared(initial: Seq<char>, ops: Seq<Op>)
    ensures
        CellState::create(initial).run(ops).inv(),
        ops.contains(Op::Clear) ==> CellState::create(initial).run(ops) == CellState::create(
            initial,
        ).clear(),
        !ops.contains(Op::Clear) ==> CellState::create(initial).run(ops) == CellState::create(
            initial,
        ),
    decreases ops.len(),
{
    if ops.len() > 0 {
        let earlier = ops.drop_last();
        lemma_initial_or_cleared(initial, earlier);
        if ops.last() == Op::Clear {
            assert(ops[ops.len() - 1] == Op::Clear);
        } else if earlier.contains(Op::Clear) {
            let i = choose|i: int| 0 <= i < earlier.len() && earlier[i] == Op::Clear;
            assert(ops[i] == Op::Clear);
        } else {
            assert forall|i: int| 0 <= i < ops.len() implies ops[i] != Op::Clear by {
                if i < earlier.len() {
                    assert(earlier[i] == ops[i]);
                }
            }
        }
    }
}

/// Release ends every life in the cleared state: whatever happened to a cell
/// while it lived, the clear that runs when it is released leaves it cleared
/// and empty.
pub proof fn lemma_released_is_cleared(initial: Seq<char>, ops: Seq<Op>)
    ensures
        CellState::create(initial).run(ops).clear().phase is Cleared,
        CellState::create(initial).run(ops).clear().read() == Seq::<char>::empty(),
{
}

} // verus!
