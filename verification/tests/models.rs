use snake::arena::Arena;
use snake::models::{Coordinate, Direction, State};

#[test]
fn coordinate_add_sums_each_component() {
    let sum = Coordinate(3, 1) + Coordinate(1, 0);
    assert_eq!(sum.0, 4);
    assert_eq!(sum.1, 1);
    let sum = Coordinate(-7, 12) + Coordinate(7, -20);
    assert_eq!(sum.0, 0);
    assert_eq!(sum.1, -8);
}

#[test]
fn coordinate_add_reaches_the_limits_of_the_type() {
    let sum = Coordinate(i32::MAX - 1, i32::MIN + 1) + Coordinate(1, -1);
    assert_eq!(sum.0, i32::MAX);
    assert_eq!(sum.1, i32::MIN);
}

#[test]
fn coordinate_equality_compares_both_components() {
    assert!(Coordinate(2, 5) == Coordinate(2, 5));
    assert!(Coordinate(2, 5) != Coordinate(5, 2));
    assert!(Coordinate(2, 5) != Coordinate(2, 6));
    assert!(Coordinate(2, 5) != Coordinate(3, 5));
}

#[test]
fn unit_vectors_point_the_right_way() {
    assert!(Direction::Up.unit_vector() == Coordinate(0, -1));
    assert!(Direction::Down.unit_vector() == Coordinate(0, 1));
    assert!(Direction::Right.unit_vector() == Coordinate(1, 0));
    assert!(Direction::Left.unit_vector() == Coordinate(-1, 0));
}

#[test]
fn state_and_direction_compare_by_variant() {
    assert_eq!(State::Paused, State::Paused);
    assert_ne!(State::Over, State::Win);
    assert_eq!(Direction::Left, Direction::Left);
    assert_ne!(Direction::Left, Direction::Right);
}

#[test]
fn arena_new_accepts_the_classic_grid() {
    let arena = Arena::new(20, 20).unwrap();
    assert_eq!(arena.width, 20);
    assert_eq!(arena.height, 20);
    assert_eq!(arena.win_length(), 399);
}

#[test]
fn arena_new_accepts_the_smallest_grid() {
    let arena = Arena::new(4, 2).unwrap();
    assert_eq!(arena.win_length(), 7);
}

#[test]
fn arena_new_rejects_a_grid_too_narrow_for_the_snake() {
    assert!(Arena::new(3, 20).is_none());
    assert!(Arena::new(0, 20).is_none());
    assert!(Arena::new(-4, 20).is_none());
}

#[test]
fn arena_new_rejects_a_grid_too_low_for_the_snake() {
    assert!(Arena::new(20, 1).is_none());
    assert!(Arena::new(20, 0).is_none());
    assert!(Arena::new(20, -2).is_none());
}

#[test]
fn arena_new_rejects_a_grid_with_too_many_cells() {
    assert!(Arena::new(46340, 46340).is_some());
    assert!(Arena::new(46341, 46341).is_none());
    assert!(Arena::new(i32::MAX, 2).is_none());
    assert!(Arena::new(i32::MAX, i32::MAX).is_none());
    assert_eq!(Arena::new(46340, 46340).unwrap().win_length(), 2_147_395_599);
}

#[test]
fn arena_contains_exactly_its_cells() {
    let arena = Arena::new(20, 10).unwrap();
    assert!(arena.contains(Coordinate(0, 0)));
    assert!(arena.contains(Coordinate(19, 9)));
    assert!(!arena.contains(Coordinate(20, 9)));
    assert!(!arena.contains(Coordinate(19, 10)));
    assert!(!arena.contains(Coordinate(-1, 0)));
    assert!(!arena.contains(Coordinate(0, -1)));
}

#[test]
fn arena_is_valid_agrees_with_new() {
    assert!(Arena { width: 20, height: 20 }.is_valid());
    assert!(Arena { width: 4, height: 2 }.is_valid());
    assert!(!Arena { width: 3, height: 2 }.is_valid());
    assert!(!Arena { width: 4, height: 1 }.is_valid());
    assert!(!Arena { width: 46341, height: 46341 }.is_valid());
    assert!(!Arena { width: -20, height: -20 }.is_valid());
}
