use std::collections::HashMap;

use explorers_and_settlers::agent::Agent;
use explorers_and_settlers::agent::Direction;
use explorers_and_settlers::cell::Cell;
use explorers_and_settlers::cell::CellState;
use explorers_and_settlers::cell::MAX_TIMES;
use explorers_and_settlers::key::key_of;

fn settler(row: i32, col: i32) -> Agent {
    Agent::with_disposition(row, col, true, Direction::Settle, 3)
}

#[test]
fn new_cell_is_empty() {
    let cell = Cell::new(3, 4);
    assert_eq!(cell.row, 3);
    assert_eq!(cell.col, 4);
    assert_eq!(cell.state, CellState::Empty);
}

#[test]
fn max_times_is_six() {
    assert_eq!(MAX_TIMES, 6);
}

#[test]
fn fill_on_empty_gives_first_claim() {
    let agent = settler(2, 7);
    let mut cell = Cell::new(0, 0);
    cell.fill(&agent);
    assert_eq!(cell.state, CellState::Filled { by: agent.id, times: 1, blocked: false });
    assert_eq!(cell.row, 0);
    assert_eq!(cell.col, 0);
}

#[test]
fn six_fills_count_up_and_the_seventh_locks() {
    let agent = settler(1, 1);
    let mut cell = Cell::new(1, 1);
    for n in 1..=6 {
        cell.fill(&agent);
        assert_eq!(cell.state, CellState::Filled { by: agent.id, times: n, blocked: false });
    }
    cell.fill(&agent);
    assert_eq!(cell.state, CellState::Filled { by: agent.id, times: 6, blocked: true });
}

#[test]
fn locked_cell_stays_as_it_is() {
    let agent = settler(1, 1);
    let mut cell = Cell::new(1, 1);
    for _ in 0..7 {
        cell.fill(&agent);
    }
    let locked = cell.state;
    assert_eq!(locked, CellState::Filled { by: agent.id, times: 6, blocked: true });
    for _ in 0..20 {
        cell.fill(&agent);
        assert_eq!(cell.state, locked);
    }
}

#[test]
fn early_lock_stays_under_its_holder() {
    let agent = settler(4, 4);
    let locked = CellState::Filled { by: agent.id, times: 2, blocked: true };
    let mut cell = Cell { row: 4, col: 4, state: locked };
    cell.fill(&agent);
    assert_eq!(cell.state, CellState::Filled { by: agent.id, times: 2, blocked: true });
}

#[test]
fn second_agent_never_displaces_the_first() {
    let first = settler(0, 0);
    let second = settler(0, 1);
    assert_ne!(first.id, second.id);
    let mut cell = Cell::new(0, 0);
    for n in 1..=5 {
        cell.fill(&first);
        let held = cell.state;
        assert_eq!(held, CellState::Filled { by: first.id, times: n, blocked: false });
        cell.fill(&second);
        assert_eq!(cell.state, held);
    }
}

#[test]
fn second_agent_changes_nothing_on_a_locked_cell() {
    let first = settler(0, 0);
    let second = settler(9, 9);
    let mut cell = Cell::new(0, 0);
    for _ in 0..7 {
        cell.fill(&first);
    }
    cell.fill(&second);
    assert_eq!(cell.state, CellState::Filled { by: first.id, times: 6, blocked: true });
}

#[test]
fn fills_are_order_dependent() {
    let a = settler(0, 0);
    let b = settler(0, 1);
    let mut ab = Cell::new(2, 2);
    ab.fill(&a);
    ab.fill(&b);
    let mut ba = Cell::new(2, 2);
    ba.fill(&b);
    ba.fill(&a);
    assert_eq!(ab.state, CellState::Filled { by: a.id, times: 1, blocked: false });
    assert_eq!(ba.state, CellState::Filled { by: b.id, times: 1, blocked: false });
}

#[test]
fn cap_reached_from_outside_locks_on_next_claim() {
    let agent = settler(3, 3);
    let full = CellState::Filled { by: agent.id, times: 6, blocked: false };
    let mut cell = Cell { row: 3, col: 3, state: full };
    cell.fill(&agent);
    assert_eq!(cell.state, CellState::Filled { by: agent.id, times: 6, blocked: true });
}

#[test]
fn neighbors_come_up_down_left_right() {
    let mut lookup: HashMap<u64, usize> = HashMap::new();
    lookup.insert(key_of(4, 5), 40);
    lookup.insert(key_of(6, 5), 60);
    lookup.insert(key_of(5, 4), 54);
    lookup.insert(key_of(5, 6), 56);
    lookup.insert(key_of(5, 5), 55);
    lookup.insert(key_of(4, 4), 44);
    let cell = Cell::new(5, 5);
    assert_eq!(cell.get_neighbors(&lookup), vec![40, 60, 54, 56]);
}

#[test]
fn neighbors_missing_from_the_lookup_are_left_out() {
    let mut lookup: HashMap<u64, usize> = HashMap::new();
    lookup.insert(key_of(6, 5), 60);
    lookup.insert(key_of(5, 6), 56);
    let cell = Cell::new(5, 5);
    assert_eq!(cell.get_neighbors(&lookup), vec![60, 56]);
    let empty: HashMap<u64, usize> = HashMap::new();
    assert_eq!(cell.get_neighbors(&empty), Vec::<usize>::new());
}

#[test]
fn negative_coordinates_are_never_looked_up() {
    let mut lookup: HashMap<u64, usize> = HashMap::new();
    lookup.insert(key_of(-1, 0), 1);
    lookup.insert(key_of(0, -1), 2);
    lookup.insert(key_of(1, 0), 3);
    lookup.insert(key_of(0, 1), 4);
    let corner = Cell::new(0, 0);
    assert_eq!(corner.get_neighbors(&lookup), vec![3, 4]);
}

#[test]
fn neighbors_of_a_cell_off_the_board_are_none() {
    let mut lookup: HashMap<u64, usize> = HashMap::new();
    lookup.insert(key_of(-5, 2), 1);
    lookup.insert(key_of(-3, 2), 2);
    lookup.insert(key_of(-4, 1), 3);
    lookup.insert(key_of(-4, 3), 4);
    let cell = Cell::new(-4, 2);
    assert_eq!(cell.get_neighbors(&lookup), Vec::<usize>::new());
}

#[test]
fn neighbors_at_the_largest_coordinate_do_not_wrap() {
    let mut lookup: HashMap<u64, usize> = HashMap::new();
    lookup.insert(key_of(i32::MAX - 1, i32::MAX), 7);
    lookup.insert(key_of(i32::MAX, i32::MAX - 1), 8);
    lookup.insert(key_of(i32::MIN, i32::MAX), 9);
    lookup.insert(key_of(i32::MAX, i32::MIN), 10);
    let cell = Cell::new(i32::MAX, i32::MAX);
    assert_eq!(cell.get_neighbors(&lookup), vec![7, 8]);
}
