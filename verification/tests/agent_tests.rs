use explorers_and_settlers::agent::Agent;
use explorers_and_settlers::agent::Direction;
use explorers_and_settlers::agent::INTENSITY_BOUND;
use explorers_and_settlers::agent::MIN_INTENSITY;
use explorers_and_settlers::agent::QUARTERS;
use explorers_and_settlers::key::key_of;

#[test]
fn with_disposition_keeps_what_it_is_given() {
    let agent = Agent::with_disposition(3, 8, false, Direction::Up, 7);
    assert_eq!(
        agent,
        Agent {
            id: key_of(3, 8),
            row: 3,
            col: 8,
            settle: false,
            direction: Direction::Up,
            intensity: 7,
        }
    );
}

#[test]
fn identity_is_the_key_of_the_place() {
    let agent = Agent::with_disposition(0, 0, true, Direction::Settle, 1);
    assert_eq!(agent.id, 9223372039002259456);
    let far = Agent::with_disposition(i32::MIN, i32::MIN, true, Direction::Settle, 1);
    assert_eq!(far.id, 0);
}

#[test]
fn agents_at_different_places_differ() {
    let a = Agent::with_disposition(1, 23, true, Direction::Settle, 1);
    let b = Agent::with_disposition(12, 3, true, Direction::Settle, 1);
    assert_ne!(a.id, b.id);
}

#[test]
fn agents_at_one_place_share_their_identity() {
    let a = Agent::with_disposition(4, 4, true, Direction::Settle, 1);
    let b = Agent::with_disposition(4, 4, false, Direction::Left, 9);
    assert_eq!(a.id, b.id);
}

#[test]
fn settle_can_be_reassigned() {
    let mut agent = Agent::with_disposition(2, 2, false, Direction::Down, 5);
    let id = agent.id;
    agent.settle = true;
    assert!(agent.settle);
    assert_eq!(agent.id, id);
}

#[test]
fn quarters_map_to_headings() {
    assert_eq!(Direction::from_quarter(0), Direction::Left);
    assert_eq!(Direction::from_quarter(1), Direction::Right);
    assert_eq!(Direction::from_quarter(2), Direction::Up);
    assert_eq!(Direction::from_quarter(3), Direction::Down);
}

#[test]
fn other_numbers_map_to_down() {
    assert_eq!(Direction::from_quarter(4), Direction::Down);
    assert_eq!(Direction::from_quarter(-1), Direction::Down);
    assert_eq!(Direction::from_quarter(i32::MAX), Direction::Down);
}

#[test]
fn bounds_of_the_draws() {
    assert_eq!(QUARTERS, 4);
    assert_eq!(MIN_INTENSITY, 1);
    assert_eq!(INTENSITY_BOUND, 10);
}

#[test]
fn drawn_state_is_consistent() {
    for _ in 0..2000 {
        let (settle, direction, intensity) = Agent::explore_or_settle();
        assert_eq!(settle, direction == Direction::Settle);
        assert!(1 <= intensity && intensity < 10);
    }
}

#[test]
fn drawn_intensity_varies_within_its_range() {
    let mut seen = [false; 10];
    for _ in 0..5000 {
        let (_, _, intensity) = Agent::explore_or_settle();
        assert!(1 <= intensity && intensity < 10);
        seen[intensity as usize] = true;
    }
    assert!(!seen[0]);
    assert!(seen.iter().filter(|&&s| s).count() > 1);
}

#[test]
fn drawn_headings_are_the_four_quarters() {
    let mut left = false;
    let mut right = false;
    let mut up = false;
    let mut down = false;
    let mut settled = false;
    for _ in 0..5000 {
        let (settle, direction, _) = Agent::explore_or_settle();
        match direction {
            Direction::Settle => {
                assert!(settle);
                settled = true;
            }
            Direction::Left => left = true,
            Direction::Right => right = true,
            Direction::Up => up = true,
            Direction::Down => down = true,
        }
    }
    assert!(settled);
    assert!(left || right || up || down);
}

#[test]
fn new_agent_knows_its_place() {
    for _ in 0..500 {
        let agent = Agent::new(6, 2);
        assert_eq!(agent.id, key_of(6, 2));
        assert_eq!(agent.row, 6);
        assert_eq!(agent.col, 2);
        assert_eq!(agent.settle, agent.direction == Direction::Settle);
        assert!(1 <= agent.intensity && agent.intensity < 10);
    }
}
