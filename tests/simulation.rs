use topdown_shooter::actors::{Projectile, ProjectileRegistry};
use topdown_shooter::aim::{
    apply_turn, compute_turn_step, desired_angle, signed_angle_diff, wrap_angle, AimTarget, FULL_TURN,
    HALF_TURN,
};
use topdown_shooter::fire::FireState;
use topdown_shooter::geometry::{isqrt, rotate, Heading, Point, Vec2, HEADING_ONE, NANOS_PER_SEC};
use topdown_shooter::input::{compute_move_velocity, Direction, HeldDirections};
use topdown_shooter::sim::{
    ConfigError, InputState, Player, SimConfig, Simulation, FINE_PER_UNIT, QUARTER_TURN, START_COORD,
};

fn held_of(dirs: &[Direction]) -> HeldDirections {
    let mut h = HeldDirections::none();
    for d in dirs {
        h.press(*d);
    }
    h
}

#[test]
fn velocity_right_at_speed_fifty() {
    let v = compute_move_velocity(&held_of(&[Direction::Right]), 50);
    assert_eq!(v, Vec2 { x: 50, y: 0 });
}

#[test]
fn right_moves_by_rotated_velocity() {
    let mut sim = Simulation::new(SimConfig::standard());
    sim.move_player(&held_of(&[Direction::Right]), NANOS_PER_SEC, Heading::identity());
    assert_eq!(sim.player.position.x, START_COORD + 50 * FINE_PER_UNIT);
    assert_eq!(sim.player.position.y, START_COORD);

    // A heading of a quarter turn sends "right" down the screen.
    let mut sim = Simulation::new(SimConfig::standard());
    let quarter = Heading { cos: 0, sin: HEADING_ONE };
    sim.move_player(&held_of(&[Direction::Right]), NANOS_PER_SEC, quarter);
    assert_eq!(sim.player.position.x, START_COORD);
    assert_eq!(sim.player.position.y, START_COORD + 50 * FINE_PER_UNIT);
}

#[test]
fn velocity_magnitude_by_direction_set() {
    assert_eq!(compute_move_velocity(&HeldDirections::none(), 50), Vec2 { x: 0, y: 0 });
    assert_eq!(compute_move_velocity(&held_of(&[Direction::Up]), 50), Vec2 { x: 0, y: -50 });
    assert_eq!(compute_move_velocity(&held_of(&[Direction::Left, Direction::Right]), 50), Vec2 { x: 0, y: 0 });
    assert_eq!(
        compute_move_velocity(&held_of(&[Direction::Up, Direction::Down, Direction::Left]), 50),
        Vec2 { x: -50, y: 0 }
    );
    // Diagonal: 35 is the largest d with 2 d^2 <= 50^2.
    let v = compute_move_velocity(&held_of(&[Direction::Down, Direction::Right]), 50);
    assert_eq!(v, Vec2 { x: 35, y: 35 });
    let m2 = v.x * v.x + v.y * v.y;
    assert!(m2 <= 2500 && 2500 < (v.x + 1) * (v.x + 1) + (v.y + 1) * (v.y + 1));
    let v = compute_move_velocity(&held_of(&[Direction::Up, Direction::Left]), u32::MAX);
    assert!(v.x < 0 && v.x == v.y);
}

#[test]
fn released_key_leaves_the_set() {
    let mut h = held_of(&[Direction::Up, Direction::Right]);
    h.release(Direction::Up);
    assert!(!h.contains(Direction::Up));
    assert!(h.contains(Direction::Right));
    assert_eq!(compute_move_velocity(&h, 50), Vec2 { x: 50, y: 0 });
}

#[test]
fn integer_square_roots() {
    assert_eq!(isqrt(0), 0);
    assert_eq!(isqrt(1), 1);
    assert_eq!(isqrt(1250), 35);
    assert_eq!(isqrt(1296), 36);
    assert_eq!(isqrt(u64::MAX), 4294967295);
}

#[test]
fn half_turn_away_turns_positively() {
    assert_eq!(signed_angle_diff(HALF_TURN, 0), HALF_TURN);
    let step = compute_turn_step(HALF_TURN, 0, NANOS_PER_SEC, 3_000_000_000);
    assert_eq!(step, 3_000_000_000);
    assert_eq!(apply_turn(HALF_TURN, step), 3_000_000_000 - HALF_TURN);

    let mut sim = Simulation::new(SimConfig::standard());
    sim.player.facing = HALF_TURN;
    sim.apply_input(&InputState {
        held: HeldDirections::none(),
        target: AimTarget::FixedAngle(0),
        trigger_held: false,
    });
    sim.turn_player(NANOS_PER_SEC, 0);
    assert_eq!(sim.player.facing, 3_000_000_000 - HALF_TURN);
}

#[test]
fn turn_never_exceeds_rate_times_dt() {
    // Target almost half a turn away, a short tick: the step is the budget only.
    let step = compute_turn_step(0, HALF_TURN - 1, 1_000_000, 3_000_000_000);
    assert_eq!(step, 3_000_000);
    let step = compute_turn_step(0, -(HALF_TURN - 1), 1_000_000, 3_000_000_000);
    assert_eq!(step, -3_000_000);
    // Rounded down: 7 nrad/s over 0.5 s.
    assert_eq!(compute_turn_step(0, 10, 500_000_000, 7), 3);
    // A target one nanoradian away still gets the whole step (overshoot).
    assert_eq!(compute_turn_step(0, 1, NANOS_PER_SEC, 3_000_000_000), 3_000_000_000);
}

#[test]
fn angles_wrap_into_half_open_range() {
    assert_eq!(wrap_angle(0), 0);
    assert_eq!(wrap_angle(HALF_TURN as i128), HALF_TURN);
    assert_eq!(wrap_angle(-(HALF_TURN as i128)), HALF_TURN);
    assert_eq!(wrap_angle(FULL_TURN as i128 + 5), 5);
    assert_eq!(wrap_angle(-(FULL_TURN as i128) * 3 - 7), -7);
    assert_eq!(signed_angle_diff(-QUARTER_TURN, QUARTER_TURN), 2 * QUARTER_TURN);
}

#[test]
fn screen_point_uses_supplied_bearing() {
    assert_eq!(desired_angle(&AimTarget::FixedAngle(42), 7), 42);
    assert_eq!(desired_angle(&AimTarget::ScreenPoint(10, 20), 7), 7);
    let mut sim = Simulation::new(SimConfig::standard());
    sim.apply_input(&InputState {
        held: HeldDirections::none(),
        target: AimTarget::ScreenPoint(100, 100),
        trigger_held: false,
    });
    // Facing -pi/2, bearing -pi/2 + 1: turn positively by 0.3 rad in 0.1 s.
    sim.turn_player(100_000_000, -QUARTER_TURN + 1);
    assert_eq!(sim.player.facing, -QUARTER_TURN + 300_000_000);
}

#[test]
fn first_shot_carries_overshoot() {
    let mut f = FireState::Firing(0);
    let shot = f.advance(2_500_000, 5_000_000);
    assert!(shot);
    assert_eq!(f, FireState::Firing(2_500_000));
    let shot = f.advance(2_500_000, 5_000_000);
    assert!(!shot);
    assert_eq!(f, FireState::Firing(0));
}

#[test]
fn release_stops_firing() {
    let mut f = FireState::new();
    f.press();
    assert_eq!(f, FireState::Firing(0));
    assert!(f.advance(1_000_000, 5_000_000));
    f.release();
    assert_eq!(f, FireState::Idle);
    for _ in 0..1000 {
        assert!(!f.advance(1_000_000_000, 5_000_000));
    }
    assert_eq!(f, FireState::Idle);
    f.press();
    assert!(f.is_firing());
    assert!(f.advance(1, 5_000_000));
}

#[test]
fn press_while_firing_keeps_timer() {
    let mut f = FireState::Firing(1234);
    f.press();
    assert_eq!(f, FireState::Firing(1234));
}

#[test]
fn spawn_count_tracks_elapsed_time() {
    let cadence: i64 = 5_000_000;
    let dts: [u64; 7] = [1_000_000, 4_999_999, 3_333_333, 5_000_000, 17, 2_666_651, 0];
    for round in 0..50u64 {
        let mut f = FireState::Firing(0);
        let mut shots: i64 = 0;
        let mut total: i64 = 0;
        for k in 0..200usize {
            let dt = dts[(k + round as usize) % dts.len()];
            if f.advance(dt, cadence) {
                shots += 1;
            }
            total += dt as i64;
            let t = match f {
                FireState::Firing(t) => t,
                FireState::Idle => panic!("trigger went idle"),
            };
            assert!(0 <= t && t <= cadence);
            assert_eq!(shots * cadence, total + t);
        }
        assert!(total <= shots * cadence && shots * cadence <= total + cadence);
    }
}

#[test]
fn zero_tick_changes_nothing() {
    let mut sim = Simulation::new(SimConfig::standard());
    sim.apply_input(&InputState {
        held: held_of(&[Direction::Up, Direction::Right]),
        target: AimTarget::FixedAngle(1),
        trigger_held: true,
    });
    assert!(sim.fire_and_fly(3_000_000, Heading::identity()));
    let before = sim.player;
    let shots_before = sim.projectiles.to_vec();
    sim.move_player(&held_of(&[Direction::Up, Direction::Right]), 0, Heading { cos: 0, sin: -HEADING_ONE });
    sim.turn_player(0, 99);
    let shot = sim.fire_and_fly(0, Heading::identity());
    assert!(!shot);
    assert_eq!(sim.player, before);
    assert_eq!(sim.projectiles.to_vec(), shots_before);
}

#[test]
fn shot_spawns_at_player_along_heading() {
    let mut sim = Simulation::new(SimConfig::standard());
    sim.apply_input(&InputState { held: HeldDirections::none(), target: AimTarget::FixedAngle(0), trigger_held: true });
    let shot = sim.fire_and_fly(1_000_000, Heading::identity());
    assert!(shot);
    assert_eq!(sim.projectiles.len(), 1);
    let p = sim.projectiles.get(0);
    assert_eq!(p.velocity, Vec2 { x: 0, y: -400 * HEADING_ONE });
    assert_eq!(p.position.x, START_COORD);
    assert_eq!(p.position.y, START_COORD - 400 * FINE_PER_UNIT / 1000);
    assert_eq!(sim.player.fire, FireState::Firing(4_000_000));
    // Releasing stops at once: no more shots.
    sim.apply_input(&InputState { held: HeldDirections::none(), target: AimTarget::FixedAngle(0), trigger_held: false });
    assert!(!sim.fire_and_fly(1_000_000_000, Heading::identity()));
    assert_eq!(sim.projectiles.len(), 1);
}

#[test]
fn config_rejects_non_positive_values() {
    assert_eq!(SimConfig::new(50, 3, 0, 400), Err(ConfigError::NonPositiveCadence));
    assert_eq!(SimConfig::new(50, 0, -5, 400), Err(ConfigError::NonPositiveCadence));
    assert_eq!(SimConfig::new(50, -1, 5, 400), Err(ConfigError::NonPositiveTurnRate));
    assert_eq!(SimConfig::new(50, 3, 5, 400), Ok(SimConfig { speed: 50, turn_rate: 3, cadence: 5, muzzle_speed: 400 }));
}

#[test]
fn new_player_defaults() {
    let p = Player::new();
    assert_eq!(p.position, Point { x: START_COORD, y: START_COORD });
    assert_eq!(p.facing, -QUARTER_TURN);
    assert_eq!(p.target, AimTarget::FixedAngle(QUARTER_TURN));
    assert_eq!(p.fire, FireState::Idle);
    assert_eq!(START_COORD, 20 * FINE_PER_UNIT);
    assert_eq!(2 * QUARTER_TURN, HALF_TURN);
}

#[test]
fn rotation_applies_matrix() {
    let h = Heading { cos: 0, sin: HEADING_ONE };
    assert_eq!(rotate(h, Vec2 { x: 2, y: 1 }), Vec2 { x: -HEADING_ONE, y: 2 * HEADING_ONE });
    let r = rotate(Heading { cos: HEADING_ONE, sin: HEADING_ONE }, Vec2 { x: -(u32::MAX as i64), y: u32::MAX as i64 });
    assert_eq!(r.x, -2 * HEADING_ONE * u32::MAX as i64);
}

#[test]
fn integration_is_order_independent() {
    let a = Projectile::new(Point { x: 0, y: 0 }, Vec2 { x: 1, y: 2 });
    let b = Projectile::new(Point { x: 10, y: -10 }, Vec2 { x: -3, y: 0 });
    let c = Projectile::new(Point { x: i128::MAX - 5, y: 7 }, Vec2 { x: 1000, y: -1 });
    let mut r1 = ProjectileRegistry::new();
    for p in [a, b, c] {
        r1.spawn(p);
    }
    let mut r2 = ProjectileRegistry::new();
    for p in [c, a, b] {
        r2.spawn(p);
    }
    r1.integrate_all(10);
    r2.integrate_all(10);
    let v1 = r1.to_vec();
    let v2 = r2.to_vec();
    assert_eq!(v1[0], v2[1]);
    assert_eq!(v1[1], v2[2]);
    assert_eq!(v1[2], v2[0]);
    assert_eq!(v1[0].position, Point { x: 10, y: 20 });
    assert_eq!(v1[1].position, Point { x: -20, y: -10 });
    // Saturates at the bound of the coordinate type.
    assert_eq!(v1[2].position, Point { x: i128::MAX, y: -3 });
}

#[test]
fn update_first_shot_spawns_then_flies() {
    let mut sim = Simulation::new(SimConfig::standard());
    let input = InputState { held: HeldDirections::none(), target: AimTarget::FixedAngle(-QUARTER_TURN), trigger_held: true };
    let up = Heading::identity();
    let shot = sim.update(&input, 2_500_000, up, 0, up);
    assert!(shot);
    assert_eq!(sim.player.fire, FireState::Firing(2_500_000));
    assert_eq!(sim.projectiles.len(), 1);
    let p = sim.projectiles.get(0);
    assert_eq!(p.velocity, Vec2 { x: 0, y: -400 * HEADING_ONE });
    assert_eq!(p.position, Point { x: START_COORD, y: START_COORD - 400 * HEADING_ONE as i128 * 2_500_000 });
    // Facing -pi/2 toward -pi/2: the turn is positive, 3 rad/s for 1/400 s.
    assert_eq!(sim.player.facing, -QUARTER_TURN + 7_500_000);
    // A zero-time tick changes nothing.
    let before = sim.player;
    assert!(!sim.update(&input, 0, up, 0, up));
    assert_eq!(sim.player, before);
    assert_eq!(sim.projectiles.len(), 1);
}
