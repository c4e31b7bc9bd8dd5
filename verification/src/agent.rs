//! Agents: the actors that claim cells.

use vstd::prelude::*;

use crate::key::coordinate_key;
use crate::key::key_of;
use crate::key::lemma_key_of_pair;
use crate::random::random_bool;
use crate::random::random_range;

verus! {

/// What tells one agent from another.
pub type AgentId = u64;

/// Where an agent is headed.
#[derive(Clone, Copy, Debug, PartialEq, Eq, Structural)]
pub enum Direction {
    /// Nowhere: the agent settles where it is.
    Settle,
    Left,
    Right,
    Up,
    Down,
}

impl Direction {
    /// The direction that the quarter `quarter` of the compass stands for:
    /// left, right, up, and down for every other number.
    pub open spec fn of_quarter(quarter: int) -> Direction {
        if quarter == 0 {
            Direction::Left
        } else if quarter == 1 {
            Direction::Right
        } else if quarter == 2 {
            Direction::Up
        } else {
            Direction::Down
        }
    }

    /// Picks the direction of an exploring agent from a quarter.
    pub fn from_quarter(quarter: i32) -> (direction: Direction)
        ensures
            direction == Direction::of_quarter(quarter as int),
            direction != Direction::Settle,
    {
        if quarter == 0 {
            Direction::Left
        } else if quarter == 1 {
            Direction::Right
        } else if quarter == 2 {
            Direction::Up
        } else {
            Direction::Down
        }
    }
}

/// The number of headings an explorer chooses from.
pub const QUARTERS: i32 = 4;

/// The least number of epochs an agent keeps its state.
pub const MIN_INTENSITY: i32 = 1;

/// The bound that the number of epochs an agent keeps its state stays under.
pub const INTENSITY_BOUND: i32 = 10;

/// One actor: who it is, where it came to be, and what it tends to do.
#[derive(Clone, Copy, Debug, PartialEq, Eq, Structural)]
pub struct Agent {
    /// The key of the place where the agent came to be.
    pub id: AgentId,
    /// The row where the agent came to be.
    pub row: i32,
    /// The column where the agent came to be.
    pub col: i32,
    /// Whether the agent tends to hold cells rather than to roam.
    pub settle: bool,
    /// Where the agent is headed.
    pub direction: Direction,
    /// How many epochs the agent remains in the same state.
    pub intensity: i32,
}

impl Agent {
    /// An agent that came to be at `(row, col)` with the given state. Its
    /// identity is the key of that place.
    pub fn with_disposition(
        row: i32,
        col: i32,
        settle: bool,
        direction: Direction,
        intensity: i32,
    ) -> (agent: Agent)
        ensures
            agent == (Agent {
                id: coordinate_key(row as int, col as int) as u64,
                row,
                col,
                settle,
                direction,
                intensity,
            }),
    {
        proof {
            lemma_key_of_pair(row as int, col as int);
        }
        Agent { id: key_of(row, col), row, col, settle, direction, intensity }
    }

    /// An agent that came to be at `(row, col)`, its state drawn at random.
    pub fn new(row: i32, col: i32) -> (agent: Agent)
        ensures
            agent.id == coordinate_key(row as int, col as int),
            agent.row == row,
            agent.col == col,
            agent.settle <==> agent.direction == Direction::Settle,
            MIN_INTENSITY <= agent.intensity < INTENSITY_BOUND,
    {
        let state: (bool, Direction, i32) = Agent::explore_or_settle();
        Agent::with_disposition(row, col, state.0, state.1, state.2)
    }

    /// Draws a state: whether to settle, a heading for an explorer, and the
    /// number of epochs the state lasts.
    pub fn explore_or_settle() -> (state: (bool, Direction, i32))
        ensures
            state.0 <==> state.1 == Direction::Settle,
            MIN_INTENSITY <= state.2 < INTENSITY_BOUND,
    {
        let settle: bool = random_bool();
        let direction: Direction = if settle {
            Direction::Settle
        } else {
            Direction::from_quarter(random_range(0, QUARTERS))
        };
        let intensity: i32 = random_range(MIN_INTENSITY, INTENSITY_BOUND);
        (settle, direction, intensity)
    }
}

} // verus!
