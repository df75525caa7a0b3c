use vstd::prelude::*;
use crate::geometry::NANOS_PER_SEC;

verus! {

/// Half a turn (pi) in nanoradians, rounded.
pub const HALF_TURN: i64 = 3141592654;

/// A full turn (two pi) in nanoradians: exactly twice `HALF_TURN`.
pub const FULL_TURN: i64 = 6283185308;

/// What the player turns toward: a fixed angle, or a point on the screen.
/// Angles are in nanoradians.
#[derive(Clone, Copy, Debug, PartialEq, Eq, Structural)]
pub enum AimTarget {
    FixedAngle(i64),
    ScreenPoint(i32, i32),
}

/// An angle brought into (-pi, pi] by adding a multiple of a full turn.
pub open spec fn wrap(a: int) -> int {
    let r = a % (FULL_TURN as int);
    if r > HALF_TURN as int { r - FULL_TURN as int } else { r }
}

/// The signed angle from `from` to `to`, in (-pi, pi].
pub open spec fn signed_diff(from: int, to: int) -> int {
    wrap(to - from)
}

/// The angle that the target asks for; `point_bearing` is the bearing of the
/// screen point from the player, which the caller supplies.
pub open spec fn desired_of(target: AimTarget, point_bearing: int) -> int {
    match target {
        AimTarget::FixedAngle(a) => a as int,
        AimTarget::ScreenPoint(_, _) => point_bearing,
    }
}

/// How far the player may turn in `dt` nanoseconds at `rate` nanoradians per
/// second, rounded down.
pub open spec fn turn_budget(rate: int, dt: int) -> int {
    (rate * dt) / (NANOS_PER_SEC as int)
}

/// The turn applied in one step: the whole budget, toward the shorter side
/// of the target; a target exactly half a turn away is turned to positively.
pub open spec fn turn_step_spec(facing: int, desired: int, dt: int, rate: int) -> int {
    if signed_diff(facing, desired) < 0 { -turn_budget(rate, dt) } else { turn_budget(rate, dt) }
}

pub proof fn lemma_wrap_range(a: int)
    ensures
        -(HALF_TURN as int) < wrap(a) <= HALF_TURN as int,
        (a - wrap(a)) % (FULL_TURN as int) == 0,
{
    let f = FULL_TURN as int;
    let r = a % f;
    assert(0 <= r < f);
    vstd::arithmetic::div_mod::lemma_fundamental_div_mod(a, f);
    if r > HALF_TURN as int {
        assert(a - wrap(a) == f * (a / f) + f);
        vstd::arithmetic::div_mod::lemma_mod_multiples_basic(a / f + 1, f);
        assert(f * (a / f) + f == (a / f + 1) * f) by (nonlinear_arith);
    } else {
        assert(a - wrap(a) == f * (a / f));
        vstd::arithmetic::div_mod::lemma_mod_multiples_basic(a / f, f);
        assert(f * (a / f) == (a / f) * f) by (nonlinear_arith);
    }
}

/// An angle brought into (-pi, pi].
pub fn wrap_angle(a: i128) -> (r: i64)
    ensures
        r == wrap(a as int),
        -HALF_TURN < r <= HALF_TURN,
{
    proof {
        lemma_wrap_range(a as int);
    }
    let m: i128 = match a.checked_rem_euclid(FULL_TURN as i128) {
        Some(m) => m,
        None => 0,
    };
    assert(m == (a as int) % (FULL_TURN as int));
    if m > HALF_TURN as i128 {
        (m - FULL_TURN as i128) as i64
    } else {
        m as i64
    }
}

/// The signed angle from `from` to `to`, in (-pi, pi].
pub fn signed_angle_diff(from: i64, to: i64) -> (r: i64)
    ensures
        r == signed_diff(from as int, to as int),
        -HALF_TURN < r <= HALF_TURN,
{
    wrap_angle(to as i128 - from as i128)
}

/// The angle that the target asks for, given the bearing of a screen point.
pub fn desired_angle(target: &AimTarget, point_bearing: i64) -> (r: i64)
    ensures
        r == desired_of(*target, point_bearing as int),
{
    match target {
        AimTarget::FixedAngle(a) => *a,
        AimTarget::ScreenPoint(_, _) => point_bearing,
    }
}

/// The signed turn for one step: the full budget of `rate` over `dt`, in the
/// direction of the target, whatever its distance.
pub fn compute_turn_step(facing: i64, desired: i64, dt: u64, rate: u64) -> (r: i128)
    ensures
        r == turn_step_spec(facing as int, desired as int, dt as int, rate as int),
        0 <= turn_budget(rate as int, dt as int) < 0x10_0000_0000_0000_0000_0000_0000,
{
    let diff: i64 = signed_angle_diff(facing, desired);
    assert((rate as u128) * (dt as u128) <= u128::MAX) by (nonlinear_arith)
        requires
            rate <= u64::MAX,
            dt <= u64::MAX,
    ;
    let prod: u128 = (rate as u128) * (dt as u128);
    let budget: u128 = prod / (NANOS_PER_SEC as u128);
    proof {
        vstd::arithmetic::div_mod::lemma_fundamental_div_mod(prod as int, 1000000000);
        assert(0 <= prod as int % 1000000000);
        assert(budget * 1000000000 <= prod) by (nonlinear_arith)
            requires
                prod == 1000000000 * (prod / 1000000000) + prod % 1000000000,
                0 <= prod % 1000000000,
                budget == prod / 1000000000,
        ;
        if budget >= 0x10_0000_0000_0000_0000_0000_0000 {
            vstd::arithmetic::mul::lemma_mul_inequality(
                0x10_0000_0000_0000_0000_0000_0000,
                budget as int,
                1000000000,
            );
            assert((0x10_0000_0000_0000_0000_0000_0000 as int) * 1000000000int > u128::MAX as int);
        }
    }
    let b: i128 = budget as i128;
    if diff < 0 {
        -b
    } else {
        b
    }
}

/// The facing after turning by `step`, brought back into (-pi, pi].
pub fn apply_turn(facing: i64, step: i128) -> (r: i64)
    requires
        -0x10_0000_0000_0000_0000_0000_0000 < step < 0x10_0000_0000_0000_0000_0000_0000,
    ensures
        r == wrap(facing + step),
        -HALF_TURN < r <= HALF_TURN,
{
    wrap_angle(facing as i128 + step)
}

} // verus!
