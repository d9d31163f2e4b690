use reactor_sim::position::{Direction, Position};
use reactor_sim::topology::{ReactorCore, TopologyError};

#[test]
fn neighbours_are_the_four_axis_aligned_positions() {
    let p = Position::new(3, -2);
    let around = p.neighbours();
    assert_eq!(around.len(), 4);
    assert_eq!(around[0], Position::new(3, -1));
    assert_eq!(around[1], Position::new(3, -3));
    assert_eq!(around[2], Position::new(2, -2));
    assert_eq!(around[3], Position::new(4, -2));
    for q in around {
        assert!(p.is_adjacent(q));
        assert!(q.is_adjacent(p));
    }
    assert!(!p.is_adjacent(Position::new(4, -1)));
    assert!(!p.is_adjacent(p));
    assert!(!p.is_adjacent(Position::new(5, -2)));
}

#[test]
fn neighbour_by_direction_matches_neighbours() {
    let p = Position::new(0, 0);
    let around = p.neighbours();
    assert_eq!(p.neighbour(Direction::Up), Some(around[0]));
    assert_eq!(p.neighbour(Direction::Down), Some(around[1]));
    assert_eq!(p.neighbour(Direction::Left), Some(around[2]));
    assert_eq!(p.neighbour(Direction::Right), Some(around[3]));
    assert_eq!(Direction::Up.opposite(), Direction::Down);
    assert_eq!(Direction::Left.opposite(), Direction::Right);
}

#[test]
fn no_neighbour_beyond_the_coordinate_range() {
    let corner = Position::new(i32::MAX, i32::MIN);
    assert_eq!(corner.neighbour(Direction::Right), None);
    assert_eq!(corner.neighbour(Direction::Down), None);
    assert_eq!(corner.neighbour(Direction::Left), Some(Position::new(i32::MAX - 1, i32::MIN)));
    assert_eq!(corner.neighbour(Direction::Up), Some(Position::new(i32::MAX, i32::MIN + 1)));
    assert!(!Position::new(i32::MAX, 0).is_adjacent(Position::new(i32::MIN, 0)));
}

#[test]
fn find_edge_is_the_same_from_either_end() {
    let mut core = ReactorCore::new();
    let a = Position::new(0, 0);
    let right = Position::new(1, 0);
    let up = Position::new(0, 1);
    assert_eq!(core.insert_edge(a, right, 7), Ok(None));
    assert_eq!(core.insert_edge(up, a, 9), Ok(None));
    assert_eq!(core.find_edge(a, right), Some(7));
    assert_eq!(core.find_edge(right, a), Some(7));
    assert_eq!(core.find_edge(a, up), Some(9));
    assert_eq!(core.find_edge(up, a), Some(9));
    assert_eq!(core.find_edge(right, up), None);
    assert_eq!(core.find_edge(a, Position::new(-1, 0)), None);
    assert_eq!(core.find_edge(a, Position::new(0, -1)), None);
    assert_eq!(core.find_edge(a, a), None);
}

#[test]
fn edges_at_the_ends_of_the_coordinate_range_are_kept_apart() {
    let mut core = ReactorCore::new();
    let low = Position::new(i32::MIN, i32::MIN);
    let high = Position::new(i32::MAX, i32::MAX);
    assert_eq!(core.insert_edge(low, Position::new(i32::MIN + 1, i32::MIN), 1), Ok(None));
    assert_eq!(core.insert_edge(low, Position::new(i32::MIN, i32::MIN + 1), 2), Ok(None));
    assert_eq!(core.insert_edge(Position::new(i32::MAX - 1, i32::MAX), high, 3), Ok(None));
    assert_eq!(core.insert_edge(Position::new(i32::MAX, i32::MAX - 1), high, 4), Ok(None));
    assert_eq!(core.find_edge(Position::new(i32::MIN + 1, i32::MIN), low), Some(1));
    assert_eq!(core.find_edge(Position::new(i32::MIN, i32::MIN + 1), low), Some(2));
    assert_eq!(core.find_edge(high, Position::new(i32::MAX - 1, i32::MAX)), Some(3));
    assert_eq!(core.find_edge(high, Position::new(i32::MAX, i32::MAX - 1)), Some(4));
    assert_eq!(core.insert_cell(low, 10), None);
    assert_eq!(core.insert_cell(high, 11), None);
    assert_eq!(core.insert_cell(Position::new(i32::MIN, i32::MAX), 12), None);
    assert_eq!(core.cell_at(low), Some(10));
    assert_eq!(core.cell_at(high), Some(11));
    assert_eq!(core.cell_at(Position::new(i32::MIN, i32::MAX)), Some(12));
    assert_eq!(core.cell_at(Position::new(i32::MAX, i32::MIN)), None);
}

#[test]
fn edges_between_distant_positions_are_refused() {
    let mut core = ReactorCore::new();
    let a = Position::new(0, 0);
    assert_eq!(core.insert_edge(a, Position::new(1, 1), 0), Err(TopologyError::NotAdjacent));
    assert_eq!(core.insert_edge(a, Position::new(2, 0), 0), Err(TopologyError::NotAdjacent));
    assert_eq!(core.insert_edge(a, a, 0), Err(TopologyError::NotAdjacent));
    assert_eq!(core.find_edge(a, Position::new(1, 1)), None);
}

#[test]
fn inserting_returns_what_was_there() {
    let mut core = ReactorCore::new();
    let a = Position::new(5, 5);
    let b = Position::new(5, 6);
    assert_eq!(core.cell_at(a), None);
    assert_eq!(core.insert_cell(a, 1), None);
    assert_eq!(core.insert_cell(a, 2), Some(1));
    assert_eq!(core.cell_at(a), Some(2));
    assert_eq!(core.cell_at(b), None);
    assert_eq!(core.insert_edge(a, b, 3), Ok(None));
    assert_eq!(core.insert_edge(b, a, 4), Ok(Some(3)));
    assert_eq!(core.find_edge(a, b), Some(4));
}

#[test]
fn removing_takes_cells_and_edges_out() {
    let mut core = ReactorCore::new();
    let a = Position::new(-1, 0);
    let b = Position::new(0, 0);
    let c = Position::new(0, 1);
    core.insert_cell(a, 0);
    core.insert_cell(b, 1);
    assert_eq!(core.insert_edge(a, b, 0), Ok(None));
    assert_eq!(core.insert_edge(b, c, 1), Ok(None));
    assert_eq!(core.remove_edge(b, a), Some(0));
    assert_eq!(core.remove_edge(b, a), None);
    assert_eq!(core.find_edge(a, b), None);
    assert_eq!(core.find_edge(c, b), Some(1));
    assert_eq!(core.remove_edge(a, c), None);
    assert_eq!(core.remove_cell(a), Some(0));
    assert_eq!(core.remove_cell(a), None);
    assert_eq!(core.cell_at(a), None);
    assert_eq!(core.cell_at(b), Some(1));
}
