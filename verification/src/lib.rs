//! A grid of cells that a population of agents settles on.
//!
//! An [`agent::Agent`] claims a [`cell::Cell`] by filling it; the cell keeps
//! its first claimant, counts the claims up to a cap, and locks after that.
//! A [`grid::Grid`] owns the cells and hands each claim to one of them, and
//! [`grid_laws`] holds what is proved of every grid. [`population`] brings
//! agents to a grid, with the draws of [`random`]. A pair of coordinates has
//! one number to stand for it, its [`key`]; [`division`] holds the facts
//! about quotients and remainders that the proofs use.

pub mod agent;
pub mod cell;
pub mod division;
pub mod grid;
pub mod grid_laws;
pub mod key;
pub mod population;
pub mod random;
