use vstd::prelude::*;
use crate::geometry::{Point, Vec2, Heading, NANOS_PER_SEC, advance_point, rotate, moved, rotated};
use crate::input::{HeldDirections, compute_move_velocity, move_velocity_of};
use crate::aim::{
    AimTarget,
    HALF_TURN,
    FULL_TURN,
    wrap,
    desired_of,
    turn_step_spec,
    turn_budget,
    lemma_wrap_range,
    desired_angle,
    compute_turn_step,
    apply_turn,
};
use crate::fire::{FireState, fire_step, fire_run, timer_of, lemma_cadence_conserved, total};
use crate::actors::{Projectile, ProjectileRegistry, all_flown, lemma_integrate_order_independent};

verus! {

/// Fine position units in one length unit: a velocity in units per second,
/// scaled by a heading, times nanoseconds.
pub const FINE_PER_UNIT: i128 = 1073741824000000000;

/// Half of `HALF_TURN`: a quarter turn in nanoradians.
pub const QUARTER_TURN: i64 = 1570796327;

/// Where a new player stands on either axis: 20 units, in fine units.
pub const START_COORD: i128 = 21474836480000000000;

/// The player's default movement speed, in units per second.
pub const DEFAULT_SPEED: u32 = 50;

/// The default turn rate: three radians per second, in nanoradians.
pub const DEFAULT_TURN_RATE: i64 = 3000000000;

/// The default time between shots: 1/200 s, in nanoseconds.
pub const DEFAULT_CADENCE: i64 = 5000000;

/// The default speed of a shot, in units per second.
pub const DEFAULT_MUZZLE_SPEED: u32 = 400;

/// The input gathered between two ticks.
#[derive(Clone, Copy, Debug, PartialEq, Eq, Structural)]
pub struct InputState {
    pub held: HeldDirections,
    pub target: AimTarget,
    pub trigger_held: bool,
}

/// A configuration that cannot drive a simulation.
#[derive(Clone, Copy, Debug, PartialEq, Eq, Structural)]
pub enum ConfigError {
    NonPositiveCadence,
    NonPositiveTurnRate,
}

/// The constants of the simulation.
#[derive(Clone, Copy, Debug, PartialEq, Eq, Structural)]
pub struct SimConfig {
    pub speed: u32,
    pub turn_rate: i64,
    pub cadence: i64,
    pub muzzle_speed: u32,
}

impl SimConfig {
    pub open spec fn valid(self) -> bool {
        self.cadence > 0 && self.turn_rate > 0
    }

    /// Checks a configuration: the cadence and the turn rate must be positive.
    pub fn new(speed: u32, turn_rate: i64, cadence: i64, muzzle_speed: u32) -> (r: Result<SimConfig, ConfigError>)
        ensures
            cadence <= 0 ==> r == Err::<SimConfig, ConfigError>(ConfigError::NonPositiveCadence),
            cadence > 0 && turn_rate <= 0 ==> r == Err::<SimConfig, ConfigError>(ConfigError::NonPositiveTurnRate),
            cadence > 0 && turn_rate > 0 ==> r == Ok::<SimConfig, ConfigError>(
                SimConfig { speed, turn_rate, cadence, muzzle_speed },
            ),
    {
        if cadence <= 0 {
            Err(ConfigError::NonPositiveCadence)
        } else if turn_rate <= 0 {
            Err(ConfigError::NonPositiveTurnRate)
        } else {
            Ok(SimConfig { speed, turn_rate, cadence, muzzle_speed })
        }
    }

    /// Speed 50, three radians per second, 200 shots per second, shots at 400.
    pub fn standard() -> (r: SimConfig)
        ensures
            r.valid(),
            r.speed == DEFAULT_SPEED,
            r.turn_rate == DEFAULT_TURN_RATE,
            r.cadence == DEFAULT_CADENCE,
            r.muzzle_speed == DEFAULT_MUZZLE_SPEED,
    {
        SimConfig {
            speed: DEFAULT_SPEED,
            turn_rate: DEFAULT_TURN_RATE,
            cadence: DEFAULT_CADENCE,
            muzzle_speed: DEFAULT_MUZZLE_SPEED,
        }
    }
}

/// The player: where it stands, the angle it faces (nanoradians, kept in
/// (-pi, pi]), what it aims at, and its trigger.
#[derive(Clone, Copy, Debug, PartialEq, Eq, Structural)]
pub struct Player {
    pub position: Point,
    pub facing: i64,
    pub target: AimTarget,
    pub fire: FireState,
}

impl Player {
    pub open spec fn wf(self) -> bool {
        -HALF_TURN < self.facing <= HALF_TURN
    }

    /// A player at (20, 20), facing up the screen, aiming at a quarter turn,
    /// not firing.
    pub fn new() -> (r: Player)
        ensures
            r.wf(),
            r.position == (Point { x: START_COORD, y: START_COORD }),
            r.facing == -QUARTER_TURN,
            r.target == AimTarget::FixedAngle(QUARTER_TURN),
            r.fire == FireState::Idle,
    {
        Player {
            position: Point { x: START_COORD, y: START_COORD },
            facing: -QUARTER_TURN,
            target: AimTarget::FixedAngle(QUARTER_TURN),
            fire: FireState::Idle,
        }
    }
}

/// The velocity of a new shot: the muzzle speed straight up the screen,
/// turned by the player's heading.
pub open spec fn muzzle_velocity(h: Heading, muzzle_speed: int) -> Vec2 {
    rotated(h, Vec2 { x: 0, y: -muzzle_speed as i64 })
}

/// The trigger after a tick's input: a held trigger starts an idle one, a
/// released one stops at once.
pub open spec fn armed(f: FireState, held: bool) -> FireState {
    if !held {
        FireState::Idle
    } else if f == FireState::Idle {
        FireState::Firing(0)
    } else {
        f
    }
}

/// The player after one tick: moved along its current heading, turned
/// toward the input's target, its trigger advanced.
pub open spec fn ticked_player(
    p: Player,
    c: SimConfig,
    input: InputState,
    dt: int,
    heading: Heading,
    point_bearing: int,
) -> Player {
    Player {
        position: moved(p.position, rotated(heading, move_velocity_of(input.held, c.speed as int)), dt),
        facing: wrap(
            p.facing + turn_step_spec(p.facing as int, desired_of(input.target, point_bearing), dt, c.turn_rate as int),
        ) as i64,
        target: input.target,
        fire: fire_step(armed(p.fire, input.trigger_held), dt, c.cadence as int).0,
    }
}

/// Whether a tick spawns a shot.
pub open spec fn tick_spawns(p: Player, c: SimConfig, input: InputState, dt: int) -> bool {
    fire_step(armed(p.fire, input.trigger_held), dt, c.cadence as int).1
}

/// The shots after one tick: a new one at the moved player along the new
/// heading when the trigger fires, then every shot flown for `dt`.
pub open spec fn ticked_shots(
    p: Player,
    shots: Seq<Projectile>,
    c: SimConfig,
    input: InputState,
    dt: int,
    heading: Heading,
    point_bearing: int,
    next_heading: Heading,
) -> Seq<Projectile> {
    let q = ticked_player(p, c, input, dt, heading, point_bearing);
    all_flown(
        if tick_spawns(p, c, input, dt) {
            shots.push(Projectile { position: q.position, velocity: muzzle_velocity(next_heading, c.muzzle_speed as int) })
        } else {
            shots
        },
        dt,
    )
}

/// The player and the number of shots after a run of ticks with the same
/// input, heading and bearing.
pub open spec fn player_run(
    p: Player,
    c: SimConfig,
    input: InputState,
    dts: Seq<int>,
    heading: Heading,
    point_bearing: int,
) -> (Player, nat)
    decreases dts.len(),
{
    if dts.len() == 0 {
        (p, 0)
    } else {
        let q = ticked_player(p, c, input, dts[0], heading, point_bearing);
        let (last, n) = player_run(q, c, input, dts.drop_first(), heading, point_bearing);
        (last, n + if tick_spawns(p, c, input, dts[0]) { 1nat } else { 0nat })
    }
}

/// The whole simulated state: the player, the shots in flight, the constants.
pub struct Simulation {
    pub player: Player,
    pub projectiles: ProjectileRegistry,
    pub config: SimConfig,
}

impl Simulation {
    pub open spec fn wf(&self) -> bool {
        self.config.valid() && self.player.wf()
    }

    pub fn new(config: SimConfig) -> (r: Simulation)
        requires
            config.valid(),
        ensures
            r.wf(),
            r.config == config,
            r.player.position == (Point { x: START_COORD, y: START_COORD }),
            r.player.facing == -QUARTER_TURN,
            r.player.target == AimTarget::FixedAngle(QUARTER_TURN),
            r.player.fire == FireState::Idle,
            r.projectiles@ == Seq::<Projectile>::empty(),
    {
        Simulation { player: Player::new(), projectiles: ProjectileRegistry::new(), config }
    }

    /// One whole tick: takes in the input, moves the player along `heading`
    /// (its current facing), turns it (`point_bearing` is the bearing of a
    /// screen-point target from the moved player), advances the trigger,
    /// spawns a shot along `next_heading` (the turned facing) when it fires,
    /// and flies every shot. Returns whether a shot was spawned.
    pub fn update(
        &mut self,
        input: &InputState,
        dt: u64,
        heading: Heading,
        point_bearing: i64,
        next_heading: Heading,
    ) -> (shot: bool)
        requires
            old(self).wf(),
            heading.wf(),
            next_heading.wf(),
        ensures
            final(self).wf(),
            final(self).config == old(self).config,
            final(self).player == ticked_player(
                old(self).player,
                old(self).config,
                *input,
                dt as int,
                heading,
                point_bearing as int,
            ),
            shot == tick_spawns(old(self).player, old(self).config, *input, dt as int),
            final(self).projectiles@ == ticked_shots(
                old(self).player,
                old(self).projectiles@,
                old(self).config,
                *input,
                dt as int,
                heading,
                point_bearing as int,
                next_heading,
            ),
    {
        self.apply_input(input);
        self.move_player(&input.held, dt, heading);
        self.turn_player(dt, point_bearing);
        self.fire_and_fly(dt, next_heading)
    }

    /// Takes in the aim target and the trigger of the input: a pressed
    /// trigger starts firing if idle; a released one stops at once.
    pub fn apply_input(&mut self, input: &InputState)
        requires
            old(self).wf(),
        ensures
            final(self).wf(),
            final(self).player.target == input.target,
            final(self).player.position == old(self).player.position,
            final(self).player.facing == old(self).player.facing,
            !input.trigger_held ==> final(self).player.fire == FireState::Idle,
            input.trigger_held && old(self).player.fire == FireState::Idle ==> final(self).player.fire
                == FireState::Firing(0),
            input.trigger_held && old(self).player.fire != FireState::Idle ==> final(self).player.fire
                == old(self).player.fire,
            final(self).projectiles@ == old(self).projectiles@,
            final(self).config == old(self).config,
    {
        self.player.target = input.target;
        if input.trigger_held {
            self.player.fire.press();
        } else {
            self.player.fire.release();
        }
    }

    /// First step of a tick: moves the player by the velocity of the held
    /// directions, turned by the player's current heading, for `dt` nanoseconds.
    pub fn move_player(&mut self, held: &HeldDirections, dt: u64, heading: Heading)
        requires
            old(self).wf(),
            heading.wf(),
        ensures
            final(self).wf(),
            final(self).player.position == moved(
                old(self).player.position,
                rotated(heading, move_velocity_of(*held, old(self).config.speed as int)),
                dt as int,
            ),
            final(self).player.facing == old(self).player.facing,
            final(self).player.target == old(self).player.target,
            final(self).player.fire == old(self).player.fire,
            final(self).projectiles@ == old(self).projectiles@,
            final(self).config == old(self).config,
    {
        let v = compute_move_velocity(held, self.config.speed);
        let turned = rotate(heading, v);
        self.player.position = advance_point(self.player.position, turned, dt);
    }

    /// Second step of a tick: turns the player toward its target by the turn
    /// rate times `dt`. `point_bearing` is the bearing of the target's screen
    /// point from the player, used when the target is a point.
    pub fn turn_player(&mut self, dt: u64, point_bearing: i64)
        requires
            old(self).wf(),
        ensures
            final(self).wf(),
            final(self).player.facing == wrap(
                old(self).player.facing + turn_step_spec(
                    old(self).player.facing as int,
                    desired_of(old(self).player.target, point_bearing as int),
                    dt as int,
                    old(self).config.turn_rate as int,
                ),
            ),
            final(self).player.position == old(self).player.position,
            final(self).player.target == old(self).player.target,
            final(self).player.fire == old(self).player.fire,
            final(self).projectiles@ == old(self).projectiles@,
            final(self).config == old(self).config,
    {
        let desired = desired_angle(&self.player.target, point_bearing);
        let step = compute_turn_step(self.player.facing, desired, dt, self.config.turn_rate as u64);
        self.player.facing = apply_turn(self.player.facing, step);
    }

    /// Last step of a tick: advances the trigger, spawns a shot at the player
    /// when it fires (moving along the player's new heading), then moves every
    /// shot for `dt` nanoseconds. Returns whether a shot was spawned.
    pub fn fire_and_fly(&mut self, dt: u64, heading: Heading) -> (shot: bool)
        requires
            old(self).wf(),
            heading.wf(),
        ensures
            final(self).wf(),
            (final(self).player.fire, shot) == fire_step(
                old(self).player.fire,
                dt as int,
                old(self).config.cadence as int,
            ),
            final(self).projectiles@ == all_flown(
                if shot {
                    old(self).projectiles@.push(
                        Projectile {
                            position: old(self).player.position,
                            velocity: muzzle_velocity(heading, old(self).config.muzzle_speed as int),
                        },
                    )
                } else {
                    old(self).projectiles@
                },
                dt as int,
            ),
            final(self).player.position == old(self).player.position,
            final(self).player.facing == old(self).player.facing,
            final(self).player.target == old(self).player.target,
            final(self).config == old(self).config,
    {
        let shot = self.player.fire.advance(dt, self.config.cadence);
        if shot {
            let m: i64 = self.config.muzzle_speed as i64;
            let v = rotate(heading, Vec2 { x: 0, y: -m });
            self.projectiles.spawn(Projectile::new(self.player.position, v));
        }
        self.projectiles.integrate_all(dt);
        shot
    }
}

/// An angle already in (-pi, pi] is its own wrap.
pub proof fn lemma_wrap_in_range(a: int)
    requires
        -(HALF_TURN as int) < a <= HALF_TURN as int,
    ensures
        wrap(a) == a,
{
    let f = FULL_TURN as int;
    if a >= 0 {
        vstd::arithmetic::div_mod::lemma_small_mod(a as nat, f as nat);
    } else {
        vstd::arithmetic::div_mod::lemma_mod_add_multiples_vanish(a, f);
        vstd::arithmetic::div_mod::lemma_small_mod((a + f) as nat, f as nat);
    }
}

/// A tick of zero elapsed time changes nothing: the player does not move or
/// turn, no shot leaves a trigger whose timer is not below zero, and no shot
/// moves.
pub proof fn lemma_zero_tick_changes_nothing(
    p: Player,
    held: HeldDirections,
    config: SimConfig,
    heading: Heading,
    point_bearing: int,
    shots: Seq<Projectile>,
)
    requires
        p.wf(),
        config.valid(),
        heading.wf(),
        timer_of(p.fire) >= 0,
    ensures
        moved(p.position, rotated(heading, move_velocity_of(held, config.speed as int)), 0) == p.position,
        wrap(
            p.facing + turn_step_spec(
                p.facing as int,
                desired_of(p.target, point_bearing),
                0,
                config.turn_rate as int,
            ),
        ) == p.facing,
        fire_step(p.fire, 0, config.cadence as int) == (p.fire, false),
        all_flown(shots, 0) == shots,
{
    let rate = config.turn_rate as int;
    assert(rate * 0 == 0);
    assert(turn_budget(rate, 0) == 0);
    lemma_wrap_in_range(p.facing as int);
    let v = rotated(heading, move_velocity_of(held, config.speed as int));
    assert(v.x * 0 == 0 && v.y * 0 == 0);
    assert(all_flown(shots, 0) =~= shots) by {
        assert forall|i: int| 0 <= i < shots.len() implies #[trigger] all_flown(shots, 0)[i] == shots[i] by {
            let s = shots[i];
            assert(s.velocity.x * 0 == 0 && s.velocity.y * 0 == 0);
        }
    }
}

/// One turn never exceeds the turn rate times the elapsed time, however far
/// the target is; the new facing is the old one plus that turn, up to whole
/// turns.
pub proof fn lemma_turn_bounded(facing: int, desired: int, dt: nat, rate: nat)
    ensures
        ({
            let step = turn_step_spec(facing, desired, dt as int, rate as int);
            &&& (if step < 0 { -step } else { step }) * (NANOS_PER_SEC as int) <= rate * dt
            &&& (facing + step - wrap(facing + step)) % (FULL_TURN as int) == 0
        }),
{
    let step = turn_step_spec(facing, desired, dt as int, rate as int);
    let prod: int = (rate * dt) as int;
    let b = turn_budget(rate as int, dt as int);
    vstd::arithmetic::div_mod::lemma_fundamental_div_mod(prod, NANOS_PER_SEC as int);
    assert(prod >= 0) by (nonlinear_arith)
        requires
            prod == rate * dt,
            rate >= 0,
            dt >= 0,
    ;
    assert(b >= 0) by {
        vstd::arithmetic::div_mod::lemma_div_pos_is_pos(prod, NANOS_PER_SEC as int);
    }
    assert(b * (NANOS_PER_SEC as int) <= prod) by (nonlinear_arith)
        requires
            prod == (NANOS_PER_SEC as int) * b + prod % (NANOS_PER_SEC as int),
            prod % (NANOS_PER_SEC as int) >= 0,
    ;
    lemma_wrap_range(facing + step);
}

/// A tick of zero elapsed time leaves the player where it stands and as it
/// faces, and spawns no shot from a trigger whose timer is not below zero.
pub proof fn lemma_zero_update_changes_nothing(
    p: Player,
    shots: Seq<Projectile>,
    c: SimConfig,
    input: InputState,
    heading: Heading,
    point_bearing: int,
    next_heading: Heading,
)
    requires
        p.wf(),
        c.valid(),
        heading.wf(),
        timer_of(p.fire) >= 0,
    ensures
        ticked_player(p, c, input, 0, heading, point_bearing).position == p.position,
        ticked_player(p, c, input, 0, heading, point_bearing).facing == p.facing,
        !tick_spawns(p, c, input, 0),
        ticked_shots(p, shots, c, input, 0, heading, point_bearing, next_heading) == shots,
{
    let q = Player { target: input.target, fire: armed(p.fire, input.trigger_held), ..p };
    lemma_zero_tick_changes_nothing(q, input.held, c, heading, point_bearing, shots);
}

/// In one tick the facing turns by at most the turn rate times the elapsed
/// time, however far the target is, up to whole turns.
pub proof fn lemma_update_turn_bounded(
    p: Player,
    c: SimConfig,
    input: InputState,
    dt: nat,
    heading: Heading,
    point_bearing: int,
)
    requires
        c.valid(),
    ensures
        ({
            let step = turn_step_spec(p.facing as int, desired_of(input.target, point_bearing), dt as int, c.turn_rate as int);
            let after = ticked_player(p, c, input, dt as int, heading, point_bearing).facing;
            &&& (if step < 0 { -step } else { step }) * (NANOS_PER_SEC as int) <= c.turn_rate * dt
            &&& (p.facing + step - after) % (FULL_TURN as int) == 0
        }),
{
    let step = turn_step_spec(p.facing as int, desired_of(input.target, point_bearing), dt as int, c.turn_rate as int);
    lemma_turn_bounded(p.facing as int, desired_of(input.target, point_bearing), dt, c.turn_rate as nat);
    lemma_wrap_range(p.facing + step);
}

/// A tick does not depend on the order of the shots: reordering them before
/// the tick gives the same shots after it, reordered the same way, with any
/// new shot last in both.
pub proof fn lemma_update_order_independent(
    p: Player,
    s1: Seq<Projectile>,
    s2: Seq<Projectile>,
    perm: Seq<int>,
    c: SimConfig,
    input: InputState,
    dt: int,
    heading: Heading,
    point_bearing: int,
    next_heading: Heading,
)
    requires
        s2.len() == s1.len(),
        perm.len() == s1.len(),
        forall|i: int| 0 <= i < perm.len() ==> 0 <= #[trigger] perm[i] < s1.len(),
        forall|i: int, j: int| 0 <= i < j < perm.len() ==> perm[i] != perm[j],
        forall|i: int| 0 <= i < s2.len() ==> #[trigger] s2[i] == s1[perm[i]],
    ensures
        ({
            let r1 = ticked_shots(p, s1, c, input, dt, heading, point_bearing, next_heading);
            let r2 = ticked_shots(p, s2, c, input, dt, heading, point_bearing, next_heading);
            &&& r2.len() == r1.len()
            &&& forall|i: int| 0 <= i < s2.len() ==> #[trigger] r2[i] == r1[perm[i]]
            &&& r2.len() > s2.len() ==> r2[s2.len() as int] == r1[s1.len() as int]
        }),
{
    let q = ticked_player(p, c, input, dt, heading, point_bearing);
    if tick_spawns(p, c, input, dt) {
        let n = Projectile { position: q.position, velocity: muzzle_velocity(next_heading, c.muzzle_speed as int) };
        let t1 = s1.push(n);
        let t2 = s2.push(n);
        let pp = perm.push(s1.len() as int);
        assert forall|i: int| 0 <= i < t2.len() implies #[trigger] t2[i] == t1[pp[i]] by {
            if i < s2.len() {
                assert(t2[i] == s2[i] && pp[i] == perm[i] && t1[perm[i]] == s1[perm[i]]);
            }
        }
        assert forall|i: int| 0 <= i < pp.len() implies 0 <= #[trigger] pp[i] < t1.len() by {
            if i < perm.len() {
                assert(pp[i] == perm[i]);
            }
        }
        assert forall|i: int, j: int| 0 <= i < j < pp.len() implies pp[i] != pp[j] by {
            if j < perm.len() {
                assert(pp[i] == perm[i] && pp[j] == perm[j]);
            } else {
                assert(pp[i] == perm[i]);
            }
        }
        lemma_integrate_order_independent(t1, t2, pp, dt);
        assert forall|i: int| 0 <= i < s2.len() implies #[trigger] all_flown(t2, dt)[i] == all_flown(t1, dt)[perm[i]] by {
            assert(pp[i] == perm[i]);
            assert(all_flown(t2, dt)[i] == all_flown(t1, dt)[pp[i]]);
        }
        assert(pp[s2.len() as int] == s1.len());
        assert(all_flown(t2, dt)[s2.len() as int] == all_flown(t1, dt)[pp[s2.len() as int]]);
    } else {
        lemma_integrate_order_independent(s1, s2, perm, dt);
    }
}

/// Ticks with the trigger held spawn shots exactly as the trigger's own
/// advances do, so the count keeps pace with the elapsed time: with each
/// tick no longer than one period, from a timer within one period, shots
/// times the period stay between the elapsed time minus the starting timer
/// and that plus one period.
pub proof fn lemma_update_cadence(
    p: Player,
    c: SimConfig,
    input: InputState,
    dts: Seq<int>,
    heading: Heading,
    point_bearing: int,
)
    requires
        c.valid(),
        input.trigger_held,
        p.fire != FireState::Idle,
        0 <= timer_of(p.fire) <= c.cadence,
        forall|i: int| 0 <= i < dts.len() ==> 0 <= #[trigger] dts[i] <= c.cadence,
    ensures
        player_run(p, c, input, dts, heading, point_bearing).1 == fire_run(p.fire, dts, c.cadence as int).1,
        total(dts) - timer_of(p.fire) <= player_run(p, c, input, dts, heading, point_bearing).1 * c.cadence,
        player_run(p, c, input, dts, heading, point_bearing).1 * c.cadence <= total(dts) + c.cadence - timer_of(
            p.fire,
        ),
    decreases dts.len(),
{
    lemma_held_run_matches(p, c, input, dts, heading, point_bearing);
    let t0 = timer_of(p.fire);
    assert(p.fire == FireState::Firing(t0 as i64));
    lemma_cadence_conserved(t0, dts, c.cadence as int);
}

/// With the trigger held, a run of ticks spawns what a run of the trigger's
/// advances spawns.
proof fn lemma_held_run_matches(
    p: Player,
    c: SimConfig,
    input: InputState,
    dts: Seq<int>,
    heading: Heading,
    point_bearing: int,
)
    requires
        input.trigger_held,
        p.fire != FireState::Idle,
    ensures
        player_run(p, c, input, dts, heading, point_bearing).1 == fire_run(p.fire, dts, c.cadence as int).1,
    decreases dts.len(),
{
    if dts.len() > 0 {
        let q = ticked_player(p, c, input, dts[0], heading, point_bearing);
        assert(armed(p.fire, true) == p.fire);
        assert(q.fire != FireState::Idle);
        lemma_held_run_matches(q, c, input, dts.drop_first(), heading, point_bearing);
    }
}

} // verus!
