//! The population: the agents that come to be on a grid, each at a place
//! drawn at random, and the claims they make as they come.

use vstd::prelude::*;

use crate::agent::Agent;
use crate::agent::INTENSITY_BOUND;
use crate::agent::MIN_INTENSITY;
use crate::grid::Grid;
use crate::grid::GridError;
use crate::grid::GridView;
use crate::key::coordinate_key;
use crate::random::random_bool;
use crate::random::random_range;

verus! {

/// How many cells a grid has for each agent of its population.
pub const CELLS_PER_AGENT: usize = 10;

/// The number of agents that a grid of `n_cols` columns and `n_rows` rows
/// takes: one for every ten cells.
pub open spec fn population_size(n_cols: int, n_rows: int) -> int {
    n_cols * n_rows / (CELLS_PER_AGENT as int)
}

/// Whether `agent` came to be on `grid`, with the key of its place as its
/// identity and a state that lasts for a number of epochs within the bounds.
pub open spec fn spawned_on(grid: GridView, agent: Agent) -> bool {
    &&& grid.in_bounds(agent.row as int, agent.col as int)
    &&& agent.id == coordinate_key(agent.row as int, agent.col as int)
    &&& MIN_INTENSITY <= agent.intensity < INTENSITY_BOUND
}

/// Whether each of `agents` came to be at a place on `grid`.
pub open spec fn all_on_grid(grid: GridView, agents: Seq<Agent>) -> bool {
    forall|i: int|
        0 <= i < agents.len() ==> grid.in_bounds(
            (#[trigger] agents[i]).row as int,
            agents[i].col as int,
        )
}

/// The grid after each of `agents`, in order, has claimed the place where it
/// came to be.
pub open spec fn after_claims(grid: GridView, agents: Seq<Agent>) -> GridView
    decreases agents.len(),
{
    if agents.len() == 0 {
        grid
    } else {
        let agent = agents.last();
        after_claims(grid, agents.drop_last()).after_fill(
            agent.row as int,
            agent.col as int,
            agent.id,
        )
    }
}

/// Claims by agents that came to be on a grid leave the grid well formed,
/// with its dimensions, its lookup and the number of its cells.
pub proof fn lemma_after_claims_wf(grid: GridView, agents: Seq<Agent>)
    requires
        grid.wf(),
        all_on_grid(grid, agents),
    ensures
        after_claims(grid, agents).wf(),
        after_claims(grid, agents).n_cols == grid.n_cols,
        after_claims(grid, agents).n_rows == grid.n_rows,
        after_claims(grid, agents).lookup == grid.lookup,
        after_claims(grid, agents).cells.len() == grid.cells.len(),
    decreases agents.len(),
{
    if agents.len() > 0 {
        let agent = agents.last();
        let before = agents.drop_last();
        assert forall|i: int| 0 <= i < before.len() implies grid.in_bounds(
            (#[trigger] before[i]).row as int,
            before[i].col as int,
        ) by {
            assert(before[i] == agents[i]);
        }
        lemma_after_claims_wf(grid, before);
        after_claims(grid, before).lemma_fill_changes_one_cell(
            agent.row as int,
            agent.col as int,
            agent.id,
        );
    }
}

/// Draws the population of `grid`: one agent for every ten cells, each at a
/// place on the grid drawn at random, with a state drawn at random.
pub fn draw_agents(grid: &Grid) -> (agents: Vec<Agent>)
    ensures
        agents@.len() == population_size(grid@.n_cols, grid@.n_rows),
        forall|i: int| 0 <= i < agents@.len() ==> spawned_on(grid@, #[trigger] agents@[i]),
{
    let n_cols: i32 = grid.n_cols();
    let n_rows: i32 = grid.n_rows();
    let max_agents: usize = grid.cells().len() / CELLS_PER_AGENT;
    let mut agents: Vec<Agent> = Vec::new();
    let mut count: usize = 0;
    while count < max_agents
        invariant
            grid@.wf(),
            n_cols == grid@.n_cols,
            n_rows == grid@.n_rows,
            count <= max_agents,
            agents@.len() == count,
            forall|i: int| 0 <= i < agents@.len() ==> spawned_on(grid@, #[trigger] agents@[i]),
        decreases max_agents - count,
    {
        let row: i32 = random_range(0, n_rows);
        let col: i32 = random_range(0, n_cols);
        let mut agent: Agent = Agent::new(row, col);
        agent.settle = random_bool();
        agents.push(agent);
        count += 1;
    }
    agents
}

/// Lets each of `agents`, in order, claim the place where it came to be.
/// Where one of them came to be off the grid, no claim is made.
pub fn fill_all(grid: &mut Grid, agents: &Vec<Agent>) -> (done: Result<(), GridError>)
    ensures
        match done {
            Ok(_) => {
                &&& all_on_grid(old(grid)@, agents@)
                &&& final(grid)@ == after_claims(old(grid)@, agents@)
            },
            Err(e) => {
                &&& e == GridError::OutOfRange
                &&& !all_on_grid(old(grid)@, agents@)
                &&& final(grid)@ == old(grid)@
            },
        },
        final(grid)@.wf(),
{
    let n_cols: i32 = grid.n_cols();
    let n_rows: i32 = grid.n_rows();
    let mut checked: usize = 0;
    while checked < agents.len()
        invariant
            grid@ == old(grid)@,
            grid@.wf(),
            n_cols == grid@.n_cols,
            n_rows == grid@.n_rows,
            checked <= agents@.len(),
            all_on_grid(grid@, agents@.take(checked as int)),
        decreases agents@.len() - checked,
    {
        let agent: &Agent = &agents[checked];
        if agent.row < 0 || agent.row >= n_rows || agent.col < 0 || agent.col >= n_cols {
            return Err(GridError::OutOfRange);
        }
        checked += 1;
    }
    assert(agents@.take(checked as int) == agents@);
    let mut filled: usize = 0;
    while filled < agents.len()
        invariant
            old(grid)@.wf(),
            all_on_grid(old(grid)@, agents@),
            filled <= agents@.len(),
            grid@ == after_claims(old(grid)@, agents@.take(filled as int)),
            grid@.wf(),
        decreases agents@.len() - filled,
    {
        let agent: &Agent = &agents[filled];
        proof {
            lemma_after_claims_wf(old(grid)@, agents@.take(filled as int));
            assert(agents@.take(filled + 1).drop_last() == agents@.take(filled as int));
        }
        let claimed: Result<(), GridError> = grid.fill(agent.row, agent.col, agent);
        assert(claimed is Ok);
        filled += 1;
    }
    assert(agents@.take(filled as int) == agents@);
    Ok(())
}

/// Brings a population to `grid`: draws its agents, and lets each claim the
/// place where it came to be, in the order they were drawn.
pub fn populate(grid: &mut Grid) -> (agents: Vec<Agent>)
    ensures
        agents@.len() == population_size(old(grid)@.n_cols, old(grid)@.n_rows),
        forall|i: int| 0 <= i < agents@.len() ==> spawned_on(old(grid)@, #[trigger] agents@[i]),
        final(grid)@ == after_claims(old(grid)@, agents@),
        final(grid)@.wf(),
{
    let agents: Vec<Agent> = draw_agents(grid);
    let claimed: Result<(), GridError> = fill_all(grid, &agents);
    assert(claimed is Ok);
    agents
}

} // verus!
