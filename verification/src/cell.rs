//! Cells: one position of the grid each, with its occupancy.

use std::collections::HashMap;
use vstd::prelude::*;

use crate::agent::Agent;
use crate::agent::AgentId;
use crate::key::coordinate_key;
use crate::key::key_of;

verus! {

broadcast use vstd::std_specs::hash::group_hash_axioms;

/// How often one agent can claim a cell before the cell locks.
pub const MAX_TIMES: i32 = 6;

/// The occupancy of a cell.
#[derive(Clone, Copy, Debug, PartialEq, Eq, Structural)]
pub enum CellState {
    /// No agent has claimed the cell.
    Empty,
    /// The agent `by` has claimed the cell `times` times; a blocked cell
    /// takes no further claim.
    Filled { by: AgentId, times: i32, blocked: bool },
}

impl CellState {
    /// A filled cell has been claimed at least once, and no more often than
    /// the cap allows.
    pub open spec fn wf(self) -> bool {
        self matches CellState::Filled { times, .. } ==> 1 <= times <= MAX_TIMES
    }

    /// How often the cell has been claimed; 0 for an empty cell.
    pub open spec fn claims(self) -> int {
        match self {
            CellState::Empty => 0,
            CellState::Filled { times, .. } => times as int,
        }
    }

    /// The state that a claim by `agent` leaves. An empty cell goes to the
    /// claimant. Its holder claims a cell again until the cap, and locks it
    /// with the claim after that. Anyone else changes nothing.
    pub open spec fn after_fill(self, agent: AgentId) -> CellState {
        match self {
            CellState::Empty => CellState::Filled { by: agent, times: 1, blocked: false },
            CellState::Filled { by, times, blocked } => if by != agent {
                self
            } else if !blocked && times < MAX_TIMES {
                CellState::Filled { by, times: (times + 1) as i32, blocked: false }
            } else {
                CellState::Filled { by, times, blocked: true }
            },
        }
    }

    /// The state after `n` claims by `agent` in a row.
    pub open spec fn after_fills(self, agent: AgentId, n: nat) -> CellState
        decreases n,
    {
        if n == 0 {
            self
        } else {
            self.after_fills(agent, (n - 1) as nat).after_fill(agent)
        }
    }

    /// A claim leaves the cell filled and keeps a well-formed state well
    /// formed; it never lowers the count and never takes a cell from its
    /// holder.
    pub proof fn lemma_after_fill_preserves(self, agent: AgentId)
        ensures
            self.after_fill(agent) is Filled,
            self.wf() ==> self.after_fill(agent).wf(),
            self.claims() <= self.after_fill(agent).claims() <= self.claims() + 1,
            self matches CellState::Filled { by, .. } ==> self.after_fill(agent)->by == by,
    {
    }

    /// From an empty cell, the first six claims of one agent count up and
    /// leave the cell open; each claim after them leaves the count at six and
    /// the cell locked.
    pub proof fn lemma_claims_in_a_row(agent: AgentId, n: nat)
        ensures
            1 <= n <= MAX_TIMES ==> CellState::Empty.after_fills(agent, n) == (CellState::Filled {
                by: agent,
                times: n as i32,
                blocked: false,
            }),
            n > MAX_TIMES ==> CellState::Empty.after_fills(agent, n) == (CellState::Filled {
                by: agent,
                times: MAX_TIMES,
                blocked: true,
            }),
        decreases n,
    {
        if n > 0 {
            Self::lemma_claims_in_a_row(agent, (n - 1) as nat);
        }
    }

    /// A locked cell stays as it is under every number of further claims by
    /// its holder.
    pub proof fn lemma_locked_stays(self, n: nat)
        requires
            self matches CellState::Filled { blocked, .. } && blocked,
        ensures
            self.after_fills(self->by, n) == self,
        decreases n,
    {
        if n > 0 {
            self.lemma_locked_stays((n - 1) as nat);
        }
    }
}

/// One position of the grid.
#[derive(Clone, Copy, Debug, PartialEq, Eq, Structural)]
pub struct Cell {
    pub row: i32,
    pub col: i32,
    pub state: CellState,
}

/// The index that `lookup` holds for `(row, col)`, as a sequence of one; the
/// empty sequence where a coordinate is negative or beyond the range of
/// coordinates, and where `lookup` has no entry for the pair.
pub open spec fn resolve(lookup: Map<u64, usize>, row: int, col: int) -> Seq<usize> {
    let key = coordinate_key(row, col) as u64;
    if 0 <= row <= i32::MAX && 0 <= col <= i32::MAX && lookup.contains_key(key) {
        seq![lookup[key]]
    } else {
        Seq::empty()
    }
}

/// What `lookup` holds for the four places next to `(row, col)`: the one
/// above, the one below, the one to the left and the one to the right, in
/// that order.
pub open spec fn neighbors_in(lookup: Map<u64, usize>, row: int, col: int) -> Seq<usize> {
    resolve(lookup, row - 1, col) + resolve(lookup, row + 1, col) + resolve(lookup, row, col - 1)
        + resolve(lookup, row, col + 1)
}

impl Cell {
    /// An empty cell at `(row, col)`.
    pub fn new(row: i32, col: i32) -> (cell: Cell)
        ensures
            cell == (Cell { row, col, state: CellState::Empty }),
    {
        Cell { row, col, state: CellState::Empty }
    }

    /// Takes a claim by `agent`.
    pub fn fill(&mut self, agent: &Agent)
        ensures
            final(self).row == old(self).row,
            final(self).col == old(self).col,
            final(self).state == old(self).state.after_fill(agent.id),
            old(self).state is Empty ==> final(self).state == (CellState::Filled {
                by: agent.id,
                times: 1,
                blocked: false,
            }),
            (old(self).state matches CellState::Filled { by, blocked, .. } && by == agent.id
                && blocked) ==> final(self).state == old(self).state,
            (old(self).state matches CellState::Filled { by, .. } && by != agent.id)
                ==> final(self).state == old(self).state,
            old(self).state.wf() ==> final(self).state.wf(),
            old(self).state.claims() <= final(self).state.claims(),
    {
        match self.state {
            CellState::Empty => {
                self.state = CellState::Filled { by: agent.id, times: 1, blocked: false };
            },
            CellState::Filled { by, times, blocked } => {
                if by == agent.id {
                    if !blocked && times < MAX_TIMES {
                        self.state = CellState::Filled { by, times: times + 1, blocked: false };
                    } else {
                        self.state = CellState::Filled { by, times, blocked: true };
                    }
                }
            },
        }
    }

    /// The indices that `cells_map` holds for the cell's neighbours.
    pub fn get_neighbors(&self, cells_map: &HashMap<u64, usize>) -> (neighbors: Vec<usize>)
        ensures
            neighbors@ == neighbors_in(cells_map@, self.row as int, self.col as int),
    {
        let mut neighbors: Vec<usize> = Vec::new();
        let row: i64 = self.row as i64;
        let col: i64 = self.col as i64;
        Cell::push_index(&mut neighbors, cells_map, row - 1, col);
        Cell::push_index(&mut neighbors, cells_map, row + 1, col);
        Cell::push_index(&mut neighbors, cells_map, row, col - 1);
        Cell::push_index(&mut neighbors, cells_map, row, col + 1);
        neighbors
    }

    /// Appends to `indices` what `cells_map` holds for `(row, col)`.
    fn push_index(
        indices: &mut Vec<usize>,
        cells_map: &HashMap<u64, usize>,
        row: i64,
        col: i64,
    )
        ensures
            final(indices)@ == old(indices)@ + resolve(cells_map@, row as int, col as int),
    {
        if 0 <= row && row <= i32::MAX as i64 && 0 <= col && col <= i32::MAX as i64 {
            let key: u64 = key_of(row as i32, col as i32);
            if let Some(index) = cells_map.get(&key) {
                indices.push(*index);
            }
        }
    }
}

} // verus!
