use snek::geometry::{Bounds, Direction, Position};
use snek::projectile::{Projectile, ProjectileSubsystem, Velocity, PROJECTILE_SPEED};

#[test]
fn projectile_speed_is_fifteen_per_frame() {
    assert_eq!(PROJECTILE_SPEED, 15);
}

#[test]
fn velocity_points_along_the_heading() {
    assert_eq!(Velocity::along(Direction::Up), Velocity { x: 0, y: 15 });
    assert_eq!(Velocity::along(Direction::Down), Velocity { x: 0, y: -15 });
    assert_eq!(Velocity::along(Direction::Left), Velocity { x: -15, y: 0 });
    assert_eq!(Velocity::along(Direction::Right), Velocity { x: 15, y: 0 });
}

#[test]
fn launch_starts_one_cell_beyond_the_origin() {
    let origin = Position::new(100, -50);
    assert_eq!(
        Projectile::launch(origin, Direction::Right),
        Projectile { position: Position { x: 125, y: -50 }, velocity: Velocity { x: 15, y: 0 } }
    );
    assert_eq!(
        Projectile::launch(origin, Direction::Left),
        Projectile { position: Position { x: 75, y: -50 }, velocity: Velocity { x: -15, y: 0 } }
    );
    assert_eq!(
        Projectile::launch(origin, Direction::Up),
        Projectile { position: Position { x: 100, y: -25 }, velocity: Velocity { x: 0, y: 15 } }
    );
    assert_eq!(
        Projectile::launch(origin, Direction::Down),
        Projectile { position: Position { x: 100, y: -75 }, velocity: Velocity { x: 0, y: -15 } }
    );
}

#[test]
fn launched_projectile_touches_but_does_not_overlap_its_origin() {
    let origin = Position::new(0, 0);
    let p = Projectile::launch(origin, Direction::Up);
    assert!(!p.position.overlaps(origin));
}

#[test]
fn projectile_advances_by_its_velocity() {
    let mut p = Projectile { position: Position::new(0, 0), velocity: Velocity { x: 15, y: 0 } };
    p.advance();
    assert_eq!(p.position, Position { x: 15, y: 0 });
    assert_eq!(p.velocity, Velocity { x: 15, y: 0 });
    p.advance();
    assert_eq!(p.position, Position { x: 30, y: 0 });
    let mut q = Projectile { position: Position::new(7, 7), velocity: Velocity { x: -3, y: 4 } };
    q.advance();
    assert_eq!(q.position, Position { x: 4, y: 11 });
}

#[test]
fn projectile_fired_right_reaches_fifteen_after_one_frame_and_is_culled_past_the_half_width() {
    let bounds = Bounds::new(80, 80).unwrap();
    let mut shots = ProjectileSubsystem::new();
    shots.fire(Position::new(-25, 0), Direction::Right);
    assert_eq!(
        shots.projectiles(),
        &vec![Projectile { position: Position { x: 0, y: 0 }, velocity: Velocity { x: 15, y: 0 } }]
    );
    shots.advance();
    shots.cull(&bounds);
    assert_eq!(shots.len(), 1);
    assert_eq!(shots.projectiles()[0].position, Position { x: 15, y: 0 });
    shots.advance();
    shots.cull(&bounds);
    assert_eq!(shots.len(), 1);
    assert_eq!(shots.projectiles()[0].position, Position { x: 30, y: 0 });
    shots.advance();
    assert_eq!(shots.projectiles()[0].position, Position { x: 45, y: 0 });
    shots.cull(&bounds);
    assert_eq!(shots.len(), 0);
}

#[test]
fn fire_appends_in_firing_order() {
    let mut shots = ProjectileSubsystem::new();
    assert_eq!(shots.len(), 0);
    shots.fire(Position::new(0, 0), Direction::Left);
    shots.fire(Position::new(0, 0), Direction::Up);
    assert_eq!(
        shots.projectiles(),
        &vec![
            Projectile { position: Position { x: -25, y: 0 }, velocity: Velocity { x: -15, y: 0 } },
            Projectile { position: Position { x: 0, y: 25 }, velocity: Velocity { x: 0, y: 15 } },
        ]
    );
}

#[test]
fn advance_moves_every_projectile() {
    let mut shots = ProjectileSubsystem::new();
    shots.fire(Position::new(0, 0), Direction::Left);
    shots.fire(Position::new(0, 0), Direction::Down);
    shots.fire(Position::new(50, 50), Direction::Right);
    shots.advance();
    let positions: Vec<Position> = shots.projectiles().iter().map(|p| p.position).collect();
    assert_eq!(
        positions,
        vec![Position { x: -40, y: 0 }, Position { x: 0, y: -40 }, Position { x: 90, y: 50 }]
    );
}

#[test]
fn cull_keeps_the_edge_and_drops_what_is_beyond_on_any_axis() {
    let bounds = Bounds::new(100, 60).unwrap();
    let mut shots = ProjectileSubsystem::new();
    shots.fire(Position::new(25, 0), Direction::Right);
    shots.fire(Position::new(26, 0), Direction::Right);
    shots.fire(Position::new(-25, 0), Direction::Left);
    shots.fire(Position::new(-26, 0), Direction::Left);
    shots.fire(Position::new(0, 5), Direction::Up);
    shots.fire(Position::new(0, 6), Direction::Up);
    shots.fire(Position::new(0, -5), Direction::Down);
    shots.fire(Position::new(0, -6), Direction::Down);
    shots.cull(&bounds);
    let positions: Vec<Position> = shots.projectiles().iter().map(|p| p.position).collect();
    assert_eq!(
        positions,
        vec![
            Position { x: 50, y: 0 },
            Position { x: -50, y: 0 },
            Position { x: 0, y: 30 },
            Position { x: 0, y: -30 },
        ]
    );
}

#[test]
fn cull_of_nothing_is_nothing() {
    let bounds = Bounds::new(100, 60).unwrap();
    let mut shots = ProjectileSubsystem::new();
    shots.cull(&bounds);
    shots.advance();
    assert_eq!(shots.len(), 0);
}

#[test]
fn strikes_finds_an_overlapping_projectile() {
    let mut shots = ProjectileSubsystem::new();
    assert!(!shots.strikes(Position::new(0, 0)));
    shots.fire(Position::new(0, 0), Direction::Right);
    assert!(shots.strikes(Position::new(25, 0)));
    assert!(shots.strikes(Position::new(49, 24)));
    assert!(!shots.strikes(Position::new(0, 0)));
    assert!(!shots.strikes(Position::new(50, 0)));
}
