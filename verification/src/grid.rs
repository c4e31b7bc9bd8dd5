//! The grid: all cells, and the ways to find one.

use std::collections::HashMap;
use vstd::prelude::*;

use crate::agent::Agent;
use crate::agent::AgentId;
use crate::cell::Cell;
use crate::cell::CellState;
use crate::division::lemma_below;
use crate::division::lemma_quotient_and_remainder;
use crate::division::lemma_split;
use crate::key::coordinate_key;
use crate::key::key_col;
use crate::key::key_of;
use crate::key::key_row;
use crate::key::lemma_key_of_pair;
use crate::key::lemma_pair_of_key;

verus! {

broadcast use vstd::std_specs::hash::group_hash_axioms;

/// Why the grid turned a request down.
#[derive(Clone, Copy, Debug, PartialEq, Eq, Structural)]
pub enum GridError {
    /// A grid has at least one column and one row.
    InvalidDimensions,
    /// The row or the column lies outside the grid.
    OutOfRange,
}

/// Where the cell made for `(row, col)` stands among the cells of a grid of
/// `n_rows` rows: the columns come one after the other, each with its rows in
/// order.
pub open spec fn position(n_rows: int, row: int, col: int) -> int {
    col * n_rows + row
}

/// The cell that is made as number `k` on a grid of `n_rows` rows, before any
/// claim.
pub open spec fn fresh_cell(n_rows: int, k: int) -> Cell {
    Cell { row: (k % n_rows) as i32, col: (k / n_rows) as i32, state: CellState::Empty }
}

/// The lookup of a grid of `n_cols` columns and `n_rows` rows: it holds the
/// keys of the pairs on the grid, each with the position of its cell.
pub open spec fn lookup_of(n_cols: int, n_rows: int) -> Map<u64, usize> {
    Map::new(
        |key: u64| 0 <= key_row(key) < n_rows && 0 <= key_col(key) < n_cols,
        |key: u64| position(n_rows, key_row(key), key_col(key)) as usize,
    )
}

/// What a grid is: its dimensions, its cells in the order they were made, and
/// the index that its lookup holds for each key.
pub struct GridView {
    pub n_cols: int,
    pub n_rows: int,
    pub cells: Seq<Cell>,
    pub lookup: Map<u64, usize>,
}

impl GridView {
    /// Whether `(row, col)` lies on the grid.
    pub open spec fn in_bounds(self, row: int, col: int) -> bool {
        0 <= row < self.n_rows && 0 <= col < self.n_cols
    }

    /// The index that a claim on `(row, col)` goes to.
    pub open spec fn linear_index(self, row: int, col: int) -> int {
        row * self.n_cols + col
    }

    /// Where the cell made for `(row, col)` stands among the cells.
    pub open spec fn position(self, row: int, col: int) -> int {
        position(self.n_rows, row, col)
    }

    /// The invariant of a grid: it has a cell for each pair of a row and a
    /// column, the cell at each position knows its row and its column, each
    /// state is well formed, and the lookup finds each cell by its key.
    pub open spec fn wf(self) -> bool {
        &&& 0 < self.n_cols <= i32::MAX
        &&& 0 < self.n_rows <= i32::MAX
        &&& self.cells.len() == self.n_cols * self.n_rows
        &&& self.cells.len() <= usize::MAX
        &&& forall|k: int|
            0 <= k < self.cells.len() ==> {
                &&& (#[trigger] self.cells[k]).row == k % self.n_rows
                &&& self.cells[k].col == k / self.n_rows
                &&& self.cells[k].state.wf()
            }
        &&& self.lookup == lookup_of(self.n_cols, self.n_rows)
    }

    /// The grid of `n_cols` columns and `n_rows` rows on which nothing has
    /// been claimed.
    pub open spec fn fresh(n_cols: int, n_rows: int) -> GridView {
        GridView {
            n_cols,
            n_rows,
            cells: Seq::new((n_cols * n_rows) as nat, |k: int| fresh_cell(n_rows, k)),
            lookup: lookup_of(n_cols, n_rows),
        }
    }

    /// What the lookup of the grid holds for `(row, col)`: the position of
    /// its cell, as a sequence of one, or nothing for a pair off the grid.
    pub open spec fn found_at(self, row: int, col: int) -> Seq<usize> {
        if self.in_bounds(row, col) {
            seq![self.position(row, col) as usize]
        } else {
            Seq::empty()
        }
    }

    /// The positions of the cells around `(row, col)` that lie on the grid:
    /// above, below, to the left and to the right, in that order.
    pub open spec fn neighbors(self, row: int, col: int) -> Seq<usize> {
        self.found_at(row - 1, col) + self.found_at(row + 1, col) + self.found_at(row, col - 1)
            + self.found_at(row, col + 1)
    }

    /// The grid after `agent` has claimed `(row, col)`: the cell at the
    /// linear index of the pair has taken the claim.
    pub open spec fn after_fill(self, row: int, col: int, agent: AgentId) -> GridView {
        let k = self.linear_index(row, col);
        GridView {
            cells: self.cells.update(
                k,
                Cell { state: self.cells[k].state.after_fill(agent), ..self.cells[k] },
            ),
            ..self
        }
    }
}

/// The lookup of a grid of `n_rows` rows while the first `count` cells have
/// been made.
spec fn lookup_below(n_rows: int, count: int) -> Map<u64, usize> {
    Map::new(
        |key: u64|
            0 <= key_row(key) < n_rows && 0 <= key_col(key) && position(
                n_rows,
                key_row(key),
                key_col(key),
            ) < count,
        |key: u64| position(n_rows, key_row(key), key_col(key)) as usize,
    )
}

/// The cell made for `(row, col)` adds the key of the pair to the lookup, with
/// the position of the cell.
proof fn lemma_lookup_grows(n_rows: int, row: int, col: int)
    requires
        0 < n_rows <= i32::MAX,
        0 <= row < n_rows,
        0 <= col <= i32::MAX,
    ensures
        lookup_below(n_rows, position(n_rows, row, col) + 1) == lookup_below(
            n_rows,
            position(n_rows, row, col),
        ).insert(coordinate_key(row, col) as u64, position(n_rows, row, col) as usize),
{
    let count = position(n_rows, row, col);
    let grown = lookup_below(n_rows, count + 1);
    let added = lookup_below(n_rows, count).insert(coordinate_key(row, col) as u64, count as usize);
    lemma_split(n_rows, col, row);
    lemma_key_of_pair(row, col);
    assert forall|key: u64| grown.contains_key(key) == added.contains_key(key) by {
        lemma_pair_of_key(key);
        if 0 <= key_row(key) < n_rows {
            lemma_split(n_rows, key_col(key), key_row(key));
        }
    }
    assert(grown =~= added);
}

/// Once every cell has been made, the lookup is that of the grid.
proof fn lemma_lookup_complete(n_cols: int, n_rows: int)
    requires
        0 < n_rows,
        0 < n_cols,
    ensures
        lookup_below(n_rows, n_cols * n_rows) == lookup_of(n_cols, n_rows),
{
    let made = lookup_below(n_rows, n_cols * n_rows);
    let whole = lookup_of(n_cols, n_rows);
    assert forall|key: u64| made.contains_key(key) == whole.contains_key(key) by {
        if 0 <= key_row(key) < n_rows && 0 <= key_col(key) {
            lemma_below(n_rows, n_cols, key_col(key), key_row(key));
        }
    }
    assert(made =~= whole);
}

/// Puts `cell` in the place of the cell at `index`.
fn put_cell(cells: &mut Vec<Cell>, index: usize, cell: Cell)
    requires
        index < old(cells)@.len(),
    ensures
        final(cells)@ == old(cells)@.update(index as int, cell),
    no_unwind
{
    cells[index] = cell;
}

/// A dense grid of cells.
pub struct Grid {
    n_cols: i32,
    n_rows: i32,
    cells: Vec<Cell>,
    cells_map: HashMap<u64, usize>,
}

impl View for Grid {
    type V = GridView;

    closed spec fn view(&self) -> GridView {
        GridView {
            n_cols: self.n_cols as int,
            n_rows: self.n_rows as int,
            cells: self.cells@,
            lookup: self.cells_map@,
        }
    }
}

impl Grid {
    /// Every grid is well formed, at all times.
    #[verifier::type_invariant]
    spec fn inv(&self) -> bool {
        self@.wf()
    }

    /// Makes the grid of `n_cols` columns and `n_rows` rows, every cell
    /// empty, and turns down dimensions that are not positive.
    pub fn new(n_cols: i32, n_rows: i32) -> (made: Result<Grid, GridError>)
        requires
            n_cols > 0 && n_rows > 0 ==> n_cols * n_rows <= usize::MAX,
        ensures
            match made {
                Ok(grid) => {
                    &&& n_cols > 0 && n_rows > 0
                    &&& grid@ == GridView::fresh(n_cols as int, n_rows as int)
                    &&& grid@.wf()
                    &&& grid@.cells.len() == n_cols * n_rows
                    &&& forall|k: int|
                        0 <= k < grid@.cells.len() ==> (#[trigger] grid@.cells[k]).state
                            == CellState::Empty
                },
                Err(e) => e == GridError::InvalidDimensions && (n_cols <= 0 || n_rows <= 0),
            },
    {
        if n_cols <= 0 || n_rows <= 0 {
            return Err(GridError::InvalidDimensions);
        }
        let mut cells: Vec<Cell> = Vec::new();
        let mut cells_map: HashMap<u64, usize> = HashMap::new();
        let mut col: i32 = 0;
        while col < n_cols
            invariant
                0 < n_rows,
                0 < n_cols,
                n_cols * n_rows <= usize::MAX,
                0 <= col <= n_cols,
                cells@.len() == col * n_rows,
                forall|k: int| 0 <= k < cells@.len() ==> cells@[k] == fresh_cell(n_rows as int, k),
                cells_map@ == lookup_below(n_rows as int, cells@.len() as int),
            decreases n_cols - col,
        {
            let mut row: i32 = 0;
            while row < n_rows
                invariant
                    0 < n_rows,
                    0 < n_cols,
                    n_cols * n_rows <= usize::MAX,
                    0 <= col < n_cols,
                    0 <= row <= n_rows,
                    cells@.len() == col * n_rows + row,
                    forall|k: int|
                        0 <= k < cells@.len() ==> cells@[k] == fresh_cell(n_rows as int, k),
                    cells_map@ == lookup_below(n_rows as int, cells@.len() as int),
                decreases n_rows - row,
            {
                let index: usize = cells.len();
                proof {
                    lemma_split(n_rows as int, col as int, row as int);
                    lemma_lookup_grows(n_rows as int, row as int, col as int);
                }
                cells.push(Cell::new(row, col));
                cells_map.insert(key_of(row, col), index);
                row += 1;
            }
            col += 1;
            assert(cells@.len() == col * n_rows) by (nonlinear_arith)
                requires
                    cells@.len() == (col - 1) * n_rows + n_rows,
            ;
        }
        proof {
            assert(cells@ =~= GridView::fresh(n_cols as int, n_rows as int).cells);
            lemma_lookup_complete(n_cols as int, n_rows as int);
            assert forall|k: int| 0 <= k < cells@.len() implies {
                &&& (#[trigger] cells@[k]).row == k % (n_rows as int)
                &&& cells@[k].col == k / (n_rows as int)
            } by {
                lemma_quotient_and_remainder(n_rows as int, n_cols as int, k);
            }
        }
        Ok(Grid { n_cols, n_rows, cells, cells_map })
    }

    /// Hands the claim of `agent` on `(row, col)` to the cell at the linear
    /// index of the pair, and turns down a pair that lies outside the grid.
    pub fn fill(&mut self, row: i32, col: i32, agent: &Agent) -> (done: Result<(), GridError>)
        ensures
            match done {
                Ok(_) => {
                    &&& old(self)@.in_bounds(row as int, col as int)
                    &&& final(self)@ == old(self)@.after_fill(row as int, col as int, agent.id)
                },
                Err(e) => {
                    &&& e == GridError::OutOfRange
                    &&& !old(self)@.in_bounds(row as int, col as int)
                    &&& final(self)@ == old(self)@
                },
            },
            final(self)@.wf(),
    {
        proof {
            use_type_invariant(&*self);
        }
        if row < 0 || row >= self.n_rows || col < 0 || col >= self.n_cols {
            return Err(GridError::OutOfRange);
        }
        proof {
            lemma_below(self.n_cols as int, self.n_rows as int, row as int, col as int);
            assert(self.n_rows * self.n_cols == self.n_cols * self.n_rows) by (nonlinear_arith);
        }
        let index: usize = row as usize * self.n_cols as usize + col as usize;
        let mut cell: Cell = self.cells[index];
        cell.fill(agent);
        put_cell(&mut self.cells, index, cell);
        Ok(())
    }

    /// The number of columns.
    pub fn n_cols(&self) -> (n: i32)
        ensures
            n == self@.n_cols,
            self@.wf(),
    {
        proof {
            use_type_invariant(self);
        }
        self.n_cols
    }

    /// The number of rows.
    pub fn n_rows(&self) -> (n: i32)
        ensures
            n == self@.n_rows,
            self@.wf(),
    {
        proof {
            use_type_invariant(self);
        }
        self.n_rows
    }

    /// The cells, in the order they were made.
    pub fn cells(&self) -> (cells: &Vec<Cell>)
        ensures
            cells@ == self@.cells,
            self@.wf(),
    {
        proof {
            use_type_invariant(self);
        }
        &self.cells
    }

    /// The lookup from the key of a pair to the position of its cell.
    pub fn cells_map(&self) -> (cells_map: &HashMap<u64, usize>)
        ensures
            cells_map@ == self@.lookup,
            self@.wf(),
    {
        proof {
            use_type_invariant(self);
        }
        &self.cells_map
    }
}

} // verus!
