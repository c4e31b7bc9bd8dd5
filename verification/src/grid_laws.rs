//! What holds of every grid: where its cells stand, how its two ways of
//! finding a cell relate, and what a claim changes.

use vstd::prelude::*;

use crate::agent::AgentId;
use crate::cell::neighbors_in;
use crate::cell::resolve;
use crate::cell::Cell;
use crate::cell::CellState;
use crate::division::lemma_below;
use crate::division::lemma_quotient_and_remainder;
use crate::division::lemma_split;
use crate::grid::GridView;
use crate::key::coordinate_key;
use crate::key::lemma_key_of_pair;

verus! {

impl GridView {
    /// A grid on which nothing has been claimed is well formed, has a cell
    /// for each pair of a row and a column, and every one of them is empty.
    pub proof fn lemma_fresh(n_cols: int, n_rows: int)
        requires
            0 < n_cols <= i32::MAX,
            0 < n_rows <= i32::MAX,
            n_cols * n_rows <= usize::MAX,
        ensures
            Self::fresh(n_cols, n_rows).wf(),
            Self::fresh(n_cols, n_rows).cells.len() == n_cols * n_rows,
            forall|k: int|
                0 <= k < n_cols * n_rows ==> (#[trigger] Self::fresh(n_cols, n_rows).cells[k]).state
                    == CellState::Empty,
    {
        let fresh = Self::fresh(n_cols, n_rows);
        lemma_below(n_rows, n_cols, 0, 0);
        assert forall|k: int| 0 <= k < fresh.cells.len() implies {
            &&& (#[trigger] fresh.cells[k]).row == k % n_rows
            &&& fresh.cells[k].col == k / n_rows
            &&& fresh.cells[k].state.wf()
        } by {
            lemma_quotient_and_remainder(n_rows, n_cols, k);
        }
    }

    /// The cell made for a pair on the grid stands at the position of the
    /// pair, knows the pair, and is the one that the lookup finds by the key
    /// of the pair.
    pub proof fn lemma_cell_at_position(self, row: int, col: int)
        requires
            self.wf(),
            self.in_bounds(row, col),
        ensures
            0 <= self.position(row, col) < self.cells.len(),
            self.cells[self.position(row, col)].row == row,
            self.cells[self.position(row, col)].col == col,
            self.lookup.contains_key(coordinate_key(row, col) as u64),
            self.lookup[coordinate_key(row, col) as u64] == self.position(row, col),
    {
        lemma_split(self.n_rows, col, row);
        lemma_below(self.n_rows, self.n_cols, col, row);
        lemma_key_of_pair(row, col);
    }

    /// Each cell of a grid lies on the grid, at the position of its pair.
    pub proof fn lemma_cell_on_grid(self, k: int)
        requires
            self.wf(),
            0 <= k < self.cells.len(),
        ensures
            self.in_bounds(self.cells[k].row as int, self.cells[k].col as int),
            self.position(self.cells[k].row as int, self.cells[k].col as int) == k,
    {
        lemma_quotient_and_remainder(self.n_rows, self.n_cols, k);
    }

    /// No two cells of a grid share their row and their column.
    pub proof fn lemma_cells_distinct(self, i: int, j: int)
        requires
            self.wf(),
            0 <= i < self.cells.len(),
            0 <= j < self.cells.len(),
            self.cells[i].row == self.cells[j].row,
            self.cells[i].col == self.cells[j].col,
        ensures
            i == j,
    {
        self.lemma_cell_on_grid(i);
        self.lemma_cell_on_grid(j);
    }

    /// The linear index of a pair on the grid is the index of a cell, and
    /// gives the pair back.
    pub proof fn lemma_linear_index_in_range(self, row: int, col: int)
        requires
            self.wf(),
            self.in_bounds(row, col),
        ensures
            0 <= self.linear_index(row, col) < self.cells.len(),
            self.linear_index(row, col) / self.n_cols == row,
            self.linear_index(row, col) % self.n_cols == col,
    {
        lemma_split(self.n_cols, row, col);
        lemma_below(self.n_cols, self.n_rows, row, col);
        assert(self.n_rows * self.n_cols == self.n_cols * self.n_rows) by (nonlinear_arith);
    }

    /// Two pairs on the grid with one linear index are one pair.
    pub proof fn lemma_linear_index_injective(self, row1: int, col1: int, row2: int, col2: int)
        requires
            self.wf(),
            self.in_bounds(row1, col1),
            self.in_bounds(row2, col2),
            self.linear_index(row1, col1) == self.linear_index(row2, col2),
        ensures
            row1 == row2,
            col1 == col2,
    {
        self.lemma_linear_index_in_range(row1, col1);
        self.lemma_linear_index_in_range(row2, col2);
    }

    /// Each index of a cell is the linear index of a pair on the grid.
    pub proof fn lemma_linear_index_onto(self, k: int)
        requires
            self.wf(),
            0 <= k < self.cells.len(),
        ensures
            self.in_bounds(k / self.n_cols, k % self.n_cols),
            self.linear_index(k / self.n_cols, k % self.n_cols) == k,
    {
        assert(self.n_rows * self.n_cols == self.n_cols * self.n_rows) by (nonlinear_arith);
        lemma_quotient_and_remainder(self.n_cols, self.n_rows, k);
    }

    /// A claim on a pair on the grid changes the cell at the linear index of
    /// the pair and no other, leaves that cell its row and its column, and
    /// leaves the grid well formed, with its dimensions and its lookup.
    pub proof fn lemma_fill_changes_one_cell(self, row: int, col: int, agent: AgentId)
        requires
            self.wf(),
            self.in_bounds(row, col),
        ensures
            self.after_fill(row, col, agent).wf(),
            self.after_fill(row, col, agent).n_cols == self.n_cols,
            self.after_fill(row, col, agent).n_rows == self.n_rows,
            self.after_fill(row, col, agent).lookup == self.lookup,
            self.after_fill(row, col, agent).cells.len() == self.cells.len(),
            forall|k: int|
                0 <= k < self.cells.len() && k != self.linear_index(row, col) ==> (
                #[trigger] self.after_fill(row, col, agent).cells[k]) == self.cells[k],
            self.after_fill(row, col, agent).cells[self.linear_index(row, col)] == (Cell {
                state: self.cells[self.linear_index(row, col)].state.after_fill(agent),
                ..self.cells[self.linear_index(row, col)]
            }),
    {
        self.lemma_linear_index_in_range(row, col);
        self.cells[self.linear_index(row, col)].state.lemma_after_fill_preserves(agent);
    }

    /// Where the linear index of a pair on the grid is the position of its
    /// cell, a claim on the pair changes the cell that knows the pair as its
    /// row and its column, and no other cell.
    pub proof fn lemma_fill_reaches_named_cell(self, row: int, col: int, agent: AgentId)
        requires
            self.wf(),
            self.in_bounds(row, col),
            self.linear_index(row, col) == self.position(row, col),
        ensures
            self.cells[self.position(row, col)].row == row,
            self.cells[self.position(row, col)].col == col,
            self.after_fill(row, col, agent).cells[self.position(row, col)] == (Cell {
                row: row as i32,
                col: col as i32,
                state: self.cells[self.position(row, col)].state.after_fill(agent),
            }),
            forall|k: int|
                0 <= k < self.cells.len() && (self.cells[k].row != row || self.cells[k].col != col)
                    ==> (#[trigger] self.after_fill(row, col, agent).cells[k]) == self.cells[k],
    {
        self.lemma_cell_at_position(row, col);
        self.lemma_fill_changes_one_cell(row, col, agent);
    }

    /// Where the linear index of a pair on the grid is not the position of
    /// its cell, a claim on the pair changes a cell that knows another pair,
    /// and leaves the cell that knows the pair as it was.
    pub proof fn lemma_fill_misses_named_cell(self, row: int, col: int, agent: AgentId)
        requires
            self.wf(),
            self.in_bounds(row, col),
            self.linear_index(row, col) != self.position(row, col),
        ensures
            self.cells[self.linear_index(row, col)].row != row || self.cells[self.linear_index(
                row,
                col,
            )].col != col,
            self.after_fill(row, col, agent).cells[self.position(row, col)]
                == self.cells[self.position(row, col)],
    {
        self.lemma_linear_index_in_range(row, col);
        self.lemma_cell_at_position(row, col);
        self.lemma_cell_on_grid(self.linear_index(row, col));
        self.lemma_fill_changes_one_cell(row, col, agent);
    }

    /// The lookup of a grid resolves a pair to the position of its cell if
    /// the pair lies on the grid, and to nothing if not.
    pub proof fn lemma_lookup_resolves(self, row: int, col: int)
        requires
            self.wf(),
        ensures
            resolve(self.lookup, row, col) == self.found_at(row, col),
    {
        if self.in_bounds(row, col) {
            self.lemma_cell_at_position(row, col);
        } else if 0 <= row <= i32::MAX && 0 <= col <= i32::MAX {
            lemma_key_of_pair(row, col);
        }
    }

    /// The neighbours that a cell finds through the lookup of a grid are the
    /// cells around it that the grid has: above, below, left, right.
    pub proof fn lemma_neighbors_on_grid(self, row: int, col: int)
        requires
            self.wf(),
        ensures
            neighbors_in(self.lookup, row, col) == self.neighbors(row, col),
    {
        self.lemma_lookup_resolves(row - 1, col);
        self.lemma_lookup_resolves(row + 1, col);
        self.lemma_lookup_resolves(row, col - 1);
        self.lemma_lookup_resolves(row, col + 1);
    }
}

} // verus!
