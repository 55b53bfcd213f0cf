use snake_online::direction::Direction;
use snake_online::position::{board_positions, contains_position, free_positions, Position};
use snake_online::{BOARD_HEIGHT, BOARD_WIDTH};
use spacetimedb::rand::rngs::StdRng;
use spacetimedb::rand::SeedableRng;

fn pos(x: u8, y: u8) -> Position {
    Position { x, y }
}

#[test]
fn apply_to_moves_one_cell() {
    let p = pos(5, 5);
    assert_eq!(Direction::Up.apply_to(&p), pos(5, 4));
    assert_eq!(Direction::Down.apply_to(&p), pos(5, 6));
    assert_eq!(Direction::Left.apply_to(&p), pos(4, 5));
    assert_eq!(Direction::Right.apply_to(&p), pos(6, 5));
}

#[test]
fn apply_to_wraps_at_the_edges() {
    // Past the high edge a coordinate wraps to zero.
    assert_eq!(Direction::Right.apply_to(&pos(9, 3)), pos(0, 3));
    assert_eq!(Direction::Down.apply_to(&pos(3, 9)), pos(3, 0));
    // Below zero a coordinate becomes the board's size, one past its last cell.
    assert_eq!(Direction::Left.apply_to(&pos(0, 3)), pos(BOARD_WIDTH, 3));
    assert_eq!(Direction::Up.apply_to(&pos(3, 0)), pos(3, BOARD_HEIGHT));
    // From that column one step right leads back to zero, one step left onto the board.
    assert_eq!(Direction::Right.apply_to(&pos(10, 3)), pos(0, 3));
    assert_eq!(Direction::Left.apply_to(&pos(10, 3)), pos(9, 3));
}

#[test]
fn apply_to_reads_high_coordinates_as_negative() {
    // 200 read as i8 is -56: below zero, so it becomes the board's size.
    assert_eq!(Direction::Up.apply_to(&pos(200, 5)), pos(BOARD_WIDTH, 4));
}

#[test]
fn is_opposite_pairs() {
    assert!(Direction::Up.is_opposite(Direction::Down));
    assert!(Direction::Down.is_opposite(Direction::Up));
    assert!(Direction::Left.is_opposite(Direction::Right));
    assert!(Direction::Right.is_opposite(Direction::Left));
    assert!(!Direction::Up.is_opposite(Direction::Up));
    assert!(!Direction::Up.is_opposite(Direction::Left));
    assert!(!Direction::Right.is_opposite(Direction::Down));
}

#[test]
fn opposite_is_symmetric_on_all_pairs() {
    let all = [Direction::Up, Direction::Down, Direction::Left, Direction::Right];
    for a in all {
        assert!(!a.is_opposite(a));
        for b in all {
            assert_eq!(a.is_opposite(b), b.is_opposite(a));
        }
    }
}

#[test]
fn steps_stay_in_reach() {
    let all = [Direction::Up, Direction::Down, Direction::Left, Direction::Right];
    for x in 0..=BOARD_WIDTH {
        for y in 0..=BOARD_HEIGHT {
            for d in all {
                let q = d.apply_to(&pos(x, y));
                assert!(q.x <= BOARD_WIDTH && q.y <= BOARD_HEIGHT);
            }
        }
    }
}

#[test]
fn step_and_back_inside_the_board() {
    let p = pos(4, 7);
    assert_eq!(Direction::Left.apply_to(&Direction::Right.apply_to(&p)), p);
    assert_eq!(Direction::Down.apply_to(&Direction::Up.apply_to(&p)), p);
    // From zero a step off the low edge lands one past the last cell, and back wraps to zero.
    assert_eq!(Direction::Right.apply_to(&Direction::Left.apply_to(&pos(0, 0))), pos(0, 0));
    assert_eq!(Direction::Down.apply_to(&Direction::Up.apply_to(&pos(0, 0))), pos(0, 0));
    // At the edge a step and a step back do not return: the wrap is not undone.
    assert_eq!(Direction::Left.apply_to(&Direction::Right.apply_to(&pos(9, 1))), pos(10, 1));
}

#[test]
fn board_positions_column_by_column() {
    let b = board_positions();
    assert_eq!(b.len(), 100);
    assert_eq!(b[0], pos(0, 0));
    assert_eq!(b[1], pos(0, 1));
    assert_eq!(b[13], pos(1, 3));
    assert_eq!(b[99], pos(9, 9));
}

#[test]
fn contains_position_finds_cells() {
    let cells = vec![pos(1, 2), pos(3, 4)];
    assert!(contains_position(&cells, &pos(3, 4)));
    assert!(!contains_position(&cells, &pos(4, 3)));
    assert!(!contains_position(&Vec::new(), &pos(0, 0)));
}

#[test]
fn free_positions_leave_out_taken_cells() {
    let taken = vec![pos(0, 0), pos(0, 2), pos(10, 10)];
    let free = free_positions(&taken);
    assert_eq!(free.len(), 98);
    assert_eq!(free[0], pos(0, 1));
    assert_eq!(free[1], pos(0, 3));
    assert!(!free.contains(&pos(0, 2)));
}

#[test]
fn pick_random_picks_a_free_cell() {
    let mut rng = StdRng::seed_from_u64(7);
    let taken: Vec<Position> = board_positions().into_iter().filter(|p| p.x != 4).collect();
    for _ in 0..20 {
        let p = Position::pick_random(&mut rng, &taken).unwrap();
        assert_eq!(p.x, 4);
        assert!(p.y < BOARD_HEIGHT);
    }
}

#[test]
fn pick_random_finds_the_last_free_cell() {
    let mut rng = StdRng::seed_from_u64(1);
    let taken: Vec<Position> = board_positions().into_iter().filter(|p| *p != pos(6, 2)).collect();
    assert_eq!(Position::pick_random(&mut rng, &taken), Some(pos(6, 2)));
}

#[test]
fn pick_random_none_on_a_full_board() {
    let mut rng = StdRng::seed_from_u64(3);
    let taken = board_positions();
    assert_eq!(Position::pick_random(&mut rng, &taken), None);
}
