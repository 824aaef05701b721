use snek::geometry::{snap_coordinate, Bounds, BoundsError, Direction, Position, CELL_SIZE};

#[test]
fn cell_size_is_twenty_five_world_units() {
    assert_eq!(CELL_SIZE, 25);
}

#[test]
fn opposite_pairs_up_with_down_and_left_with_right() {
    assert_eq!(Direction::Up.opposite(), Direction::Down);
    assert_eq!(Direction::Down.opposite(), Direction::Up);
    assert_eq!(Direction::Left.opposite(), Direction::Right);
    assert_eq!(Direction::Right.opposite(), Direction::Left);
}

#[test]
fn is_opposite_of_holds_only_for_exact_reversal() {
    let all = [Direction::Up, Direction::Down, Direction::Left, Direction::Right];
    for a in all {
        for b in all {
            assert_eq!(a.is_opposite_of(b), a == b.opposite());
        }
    }
    assert!(Direction::Left.is_opposite_of(Direction::Right));
    assert!(!Direction::Left.is_opposite_of(Direction::Left));
    assert!(!Direction::Left.is_opposite_of(Direction::Up));
}

#[test]
fn shifted_moves_along_each_heading() {
    let p = Position::new(10, -4);
    assert_eq!(p.shifted(Direction::Up, 25), Position { x: 10, y: 21 });
    assert_eq!(p.shifted(Direction::Down, 25), Position { x: 10, y: -29 });
    assert_eq!(p.shifted(Direction::Left, 25), Position { x: -15, y: -4 });
    assert_eq!(p.shifted(Direction::Right, 25), Position { x: 35, y: -4 });
}

#[test]
fn can_shift_detects_the_edge_of_the_coordinate_range() {
    let far_right = Position::new(i64::MAX - 10, 0);
    assert!(far_right.can_shift(Direction::Right, 10));
    assert!(!far_right.can_shift(Direction::Right, 11));
    assert!(far_right.can_shift(Direction::Left, 25));
    assert!(far_right.can_shift(Direction::Up, 25));
    let far_down = Position::new(0, i64::MIN + 24);
    assert!(!far_down.can_shift(Direction::Down, 25));
    assert!(far_down.can_shift(Direction::Down, 24));
}

#[test]
fn overlap_needs_positive_area_on_both_axes() {
    let a = Position::new(0, 0);
    assert!(a.overlaps(Position::new(0, 0)));
    assert!(a.overlaps(Position::new(24, 0)));
    assert!(a.overlaps(Position::new(-24, 24)));
    assert!(a.overlaps(Position::new(10, -10)));
    assert!(!a.overlaps(Position::new(100, 0)));
    assert!(!a.overlaps(Position::new(0, 26)));
    assert!(!a.overlaps(Position::new(24, 25)));
}

#[test]
fn squares_that_only_touch_do_not_overlap() {
    let a = Position::new(0, 0);
    assert!(!a.overlaps(Position::new(25, 0)));
    assert!(!a.overlaps(Position::new(-25, 0)));
    assert!(!a.overlaps(Position::new(0, 25)));
    assert!(!a.overlaps(Position::new(0, -25)));
    assert!(!a.overlaps(Position::new(25, 25)));
}

#[test]
fn overlap_is_symmetric() {
    let a = Position::new(3, 7);
    let b = Position::new(-20, 30);
    assert_eq!(a.overlaps(b), b.overlaps(a));
    assert!(a.overlaps(b));
    let c = Position::new(-22, 30);
    assert_eq!(a.overlaps(c), c.overlaps(a));
    assert!(!a.overlaps(c));
}

#[test]
fn overlap_copes_with_the_far_corners_of_the_range() {
    let low = Position::new(i64::MIN, i64::MIN);
    let high = Position::new(i64::MAX, i64::MAX);
    assert!(!low.overlaps(high));
    assert!(!high.overlaps(low));
    assert!(low.overlaps(Position::new(i64::MIN + 24, i64::MIN)));
    assert!(high.overlaps(high));
}

#[test]
fn snap_rounds_down_to_the_grid() {
    assert_eq!(snap_coordinate(0), 0);
    assert_eq!(snap_coordinate(1), 0);
    assert_eq!(snap_coordinate(24), 0);
    assert_eq!(snap_coordinate(25), 25);
    assert_eq!(snap_coordinate(26), 25);
    assert_eq!(snap_coordinate(399), 375);
}

#[test]
fn snap_rounds_negative_coordinates_away_from_zero() {
    assert_eq!(snap_coordinate(-1), -25);
    assert_eq!(snap_coordinate(-24), -25);
    assert_eq!(snap_coordinate(-25), -25);
    assert_eq!(snap_coordinate(-26), -50);
    assert_eq!(snap_coordinate(-400), -400);
}

#[test]
fn snapped_position_snaps_both_axes() {
    assert_eq!(Position::new(37, -3).snapped(), Position { x: 25, y: -25 });
    assert_eq!(Position::new(-50, 50).snapped(), Position { x: -50, y: 50 });
}

#[test]
fn bounds_accepts_a_real_play_area() {
    let b = Bounds::new(800, 600).unwrap();
    assert_eq!(b, Bounds { width: 800, height: 600 });
    assert_eq!(b.half_width_units(), 400);
    assert_eq!(b.half_height_units(), 300);
    assert!(b.is_wf());
}

#[test]
fn bounds_halves_round_down() {
    let b = Bounds::new(5, 3).unwrap();
    assert_eq!(b.half_width_units(), 2);
    assert_eq!(b.half_height_units(), 1);
}

#[test]
fn bounds_refuses_a_zero_size_area() {
    assert_eq!(Bounds::new(0, 0), Err(BoundsError::Width));
    assert_eq!(Bounds::new(0, 600), Err(BoundsError::Width));
    assert_eq!(Bounds::new(800, 0), Err(BoundsError::Height));
}

#[test]
fn bounds_refuses_an_area_without_a_whole_unit_per_side() {
    assert_eq!(Bounds::new(1, 600), Err(BoundsError::Width));
    assert_eq!(Bounds::new(800, 1), Err(BoundsError::Height));
    assert!(Bounds::new(2, 2).is_ok());
    assert!(!Bounds { width: 1, height: 9 }.is_wf());
}

#[test]
fn bounds_hold_their_edges() {
    let b = Bounds::new(40, 20).unwrap();
    assert!(b.holds(Position::new(0, 0)));
    assert!(b.holds(Position::new(20, 10)));
    assert!(b.holds(Position::new(-20, -10)));
    assert!(!b.holds(Position::new(21, 0)));
    assert!(!b.holds(Position::new(-21, 0)));
    assert!(!b.holds(Position::new(0, 11)));
    assert!(!b.holds(Position::new(0, -11)));
}
