use topdown_shooter::actors::{Actor, Projectile};
use topdown_shooter::geometry::{advance_point, Point, Vec2};
use topdown_shooter::movement::{Move, Position, Rotate, Velocity, World};

#[test]
fn move_advances_only_entities_with_both_components() {
    let mut world = World::new();
    let both = world.create_entity();
    let only_pos = world.create_entity();
    let only_vel = world.create_entity();
    let bare = world.create_entity();
    assert_eq!(world.entity_count(), 4);
    world.set_position(both, Some(Position(Point { x: 1, y: 2 })));
    world.set_velocity(both, Some(Velocity(Vec2 { x: 3, y: -4 })));
    world.set_position(only_pos, Some(Position(Point { x: 5, y: 5 })));
    world.set_velocity(only_vel, Some(Velocity(Vec2 { x: 9, y: 9 })));
    let mut system = Move;
    system.run(&mut world, 1_000);
    assert_eq!(world.position(both), Some(Position(Point { x: 3001, y: -3998 })));
    assert_eq!(world.position(only_pos), Some(Position(Point { x: 5, y: 5 })));
    assert_eq!(world.position(only_vel), None);
    assert_eq!(world.velocity(only_vel), Some(Velocity(Vec2 { x: 9, y: 9 })));
    assert_eq!(world.position(bare), None);
    let r = Rotate(17);
    assert_eq!(r.0, 17);
}

#[test]
fn move_with_zero_time_keeps_positions() {
    let mut world = World::new();
    let e = world.create_entity();
    world.set_position(e, Some(Position(Point { x: -7, y: 8 })));
    world.set_velocity(e, Some(Velocity(Vec2 { x: i64::MAX, y: i64::MIN })));
    Move.run(&mut world, 0);
    assert_eq!(world.position(e), Some(Position(Point { x: -7, y: 8 })));
}

#[test]
fn projectile_updates_through_actor() {
    let mut p = Projectile::new(Point { x: 0, y: 0 }, Vec2 { x: -2, y: 5 });
    p.update(3);
    assert_eq!(*p.borrow_position(), Point { x: -6, y: 15 });
    let mut q = p;
    q.advance(1);
    assert_eq!(q.position, Point { x: -8, y: 20 });
}

#[test]
fn advance_saturates_at_the_bounds() {
    let p = advance_point(Point { x: i128::MIN + 1, y: 0 }, Vec2 { x: i64::MIN, y: i64::MAX }, u64::MAX);
    assert_eq!(p.x, i128::MIN);
    assert_eq!(p.y, (i64::MAX as i128) * (u64::MAX as i128));
}

#[test]
fn projectile_half_second_flight() {
    let mut p = Projectile::new(Point { x: 0, y: 0 }, Vec2 { x: 0, y: -400 });
    p.update(500_000_000);
    assert_eq!(*p.borrow_position(), Point { x: 0, y: -200_000_000_000 });
    assert_eq!(p.velocity, Vec2 { x: 0, y: -400 });
}

#[test]
fn split_flight_equals_whole_flight() {
    let start = Projectile::new(Point { x: 3, y: -9 }, Vec2 { x: 7, y: -11 });
    let mut a = start;
    a.update(123);
    a.update(877);
    let mut b = start;
    b.update(1000);
    assert_eq!(a, b);
}
