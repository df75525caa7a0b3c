use vstd::prelude::*;
use crate::geometry::{Vec2, isqrt, mag2};

verus! {

/// One of the four movement directions, in screen space (y grows downward).
#[derive(Clone, Copy, Debug, PartialEq, Eq, Structural)]
pub enum Direction {
    Up,
    Down,
    Left,
    Right,
}

/// The set of directions currently held.
#[derive(Clone, Copy, Debug, PartialEq, Eq, Structural)]
pub struct HeldDirections {
    pub up: bool,
    pub down: bool,
    pub left: bool,
    pub right: bool,
}

impl HeldDirections {
    /// Whether direction `d` is in the set.
    pub open spec fn holds(self, d: Direction) -> bool {
        match d {
            Direction::Up => self.up,
            Direction::Down => self.down,
            Direction::Left => self.left,
            Direction::Right => self.right,
        }
    }

    /// The sum of the unit vectors of the held directions.
    pub open spec fn sum(self) -> (int, int) {
        ((if self.right { 1int } else { 0 }) - (if self.left { 1int } else { 0 }),
         (if self.down { 1int } else { 0 }) - (if self.up { 1int } else { 0 }))
    }

    /// No direction held.
    pub fn none() -> (r: HeldDirections)
        ensures
            forall|d: Direction| !r.holds(d),
    {
        HeldDirections { up: false, down: false, left: false, right: false }
    }

    /// Whether direction `d` is held.
    pub fn contains(&self, d: Direction) -> (r: bool)
        ensures
            r == self.holds(d),
    {
        match d {
            Direction::Up => self.up,
            Direction::Down => self.down,
            Direction::Left => self.left,
            Direction::Right => self.right,
        }
    }

    /// Adds `d` to the set, as a key-down event does.
    pub fn press(&mut self, d: Direction)
        ensures
            final(self).holds(d),
            forall|e: Direction| e != d ==> final(self).holds(e) == old(self).holds(e),
    {
        match d {
            Direction::Up => self.up = true,
            Direction::Down => self.down = true,
            Direction::Left => self.left = true,
            Direction::Right => self.right = true,
        }
    }

    /// Removes `d` from the set, as a key-up event does.
    pub fn release(&mut self, d: Direction)
        ensures
            !final(self).holds(d),
            forall|e: Direction| e != d ==> final(self).holds(e) == old(self).holds(e),
    {
        match d {
            Direction::Up => self.up = false,
            Direction::Down => self.down = false,
            Direction::Left => self.left = false,
            Direction::Right => self.right = false,
        }
    }
}

/// The component of a diagonal velocity of the given speed: the largest `d`
/// with `2 * d * d <= speed * speed`, so that the diagonal never exceeds the
/// speed and falls short of it by less than one unit per axis.
pub open spec fn diagonal_component(speed: int, d: int) -> bool {
    &&& 0 <= d
    &&& 2 * d * d <= speed * speed
    &&& speed * speed < 2 * (d + 1) * (d + 1)
}

/// The diagonal component for `speed`.
pub open spec fn diagonal(speed: int) -> int {
    choose|d: int| diagonal_component(speed, d)
}

/// The velocity of the held directions at `speed`: the sum of their unit
/// vectors, normalised and scaled by `speed`. Opposite directions cancel; a
/// zero sum gives the zero vector.
pub open spec fn move_velocity_of(held: HeldDirections, speed: int) -> Vec2 {
    let (sx, sy) = held.sum();
    let m = if sx == 0 || sy == 0 { speed } else { diagonal(speed) };
    Vec2 { x: signed(sx, m) as i64, y: signed(sy, m) as i64 }
}

/// `m` with the sign of `s`, or zero.
pub open spec fn signed(s: int, m: int) -> int {
    if s > 0 { m } else if s < 0 { -m } else { 0 }
}

/// There is only one diagonal component for a speed.
pub proof fn lemma_diagonal_unique(speed: int, d: int)
    requires
        diagonal_component(speed, d),
    ensures
        diagonal(speed) == d,
{
    let e = diagonal(speed);
    assert(diagonal_component(speed, e));
    if e < d {
        assert(2 * (e + 1) * (e + 1) <= 2 * d * d) by (nonlinear_arith)
            requires
                0 <= e < d,
        ;
    } else if d < e {
        assert(2 * (d + 1) * (d + 1) <= 2 * e * e) by (nonlinear_arith)
            requires
                0 <= d < e,
        ;
    }
}

/// Computes the movement velocity of the held directions at `speed`.
pub fn compute_move_velocity(held: &HeldDirections, speed: u32) -> (r: Vec2)
    ensures
        r == move_velocity_of(*held, speed as int),
        r.small(),
{
    let sx: i64 = (if held.right { 1i64 } else { 0 }) - (if held.left { 1i64 } else { 0 });
    let sy: i64 = (if held.down { 1i64 } else { 0 }) - (if held.up { 1i64 } else { 0 });
    let s: i64 = speed as i64;
    if sx == 0 || sy == 0 {
        let x: i64 = if sx > 0 { s } else if sx < 0 { -s } else { 0 };
        let y: i64 = if sy > 0 { s } else if sy < 0 { -s } else { 0 };
        let r = Vec2 { x, y };
        assert(r.x == sx * s && r.y == sy * s);
        r
    } else {
        assert((speed as u64) * (speed as u64) <= u64::MAX) by (nonlinear_arith)
            requires
                speed <= u32::MAX,
        ;
        let sq: u64 = (speed as u64) * (speed as u64);
        let d: u64 = isqrt(sq / 2);
        assert(2 * d * d <= sq && sq < 2 * (d + 1) * (d + 1)) by (nonlinear_arith)
            requires
                d * d <= sq / 2,
                sq / 2 < (d + 1) * (d + 1),
        ;
        assert(d <= u32::MAX) by (nonlinear_arith)
            requires
                2 * d * d <= sq,
                sq == speed * speed,
                speed <= u32::MAX,
        ;
        let di: i64 = d as i64;
        let r = Vec2 { x: if sx > 0 { di } else { -di }, y: if sy > 0 { di } else { -di } };
        assert(r.x == sx * di && r.y == sy * di);
        assert(diagonal_component(speed as int, d as int));
        proof {
            lemma_diagonal_unique(speed as int, d as int);
        }
        r
    }
}

} // verus!

verus! {

/// The movement velocity never exceeds the speed: it has exactly the speed
/// along an axis, none for a zero sum, and on a diagonal the largest integer
/// components whose length does not exceed it.
pub proof fn lemma_move_velocity_magnitude(held: HeldDirections, speed: u32)
    ensures
        ({
            let v = move_velocity_of(held, speed as int);
            let (sx, sy) = held.sum();
            &&& sx == 0 && sy == 0 ==> mag2(v) == 0
            &&& (sx == 0) != (sy == 0) ==> mag2(v) == speed * speed
            &&& sx != 0 && sy != 0 ==> mag2(v) <= speed * speed
            &&& sx != 0 && sy != 0 ==> speed * speed < mag2(
                Vec2 { x: (v.x + sx) as i64, y: (v.y + sy) as i64 },
            )
        }),
{
    let v = move_velocity_of(held, speed as int);
    let (sx, sy) = held.sum();
    let s = speed as int;
    if sx != 0 && sy != 0 {
        lemma_diagonal_exists(s);
        let d = diagonal(s);
        assert(diagonal_component(s, d));
        assert(d <= s) by (nonlinear_arith)
            requires
                diagonal_component(s, d),
                s >= 0,
        ;
        assert(v.x == signed(sx, d) && v.y == signed(sy, d));
        assert(v.x == sx * d && v.y == sy * d);
        assert(mag2(v) == 2 * d * d) by (nonlinear_arith)
            requires
                v.x == sx * d,
                v.y == sy * d,
                sx == 1 || sx == -1,
                sy == 1 || sy == -1,
        ;
        let w = Vec2 { x: (v.x + sx) as i64, y: (v.y + sy) as i64 };
        assert(w.x == sx * (d + 1) && w.y == sy * (d + 1));
        assert(mag2(w) == 2 * (d + 1) * (d + 1)) by (nonlinear_arith)
            requires
                w.x == sx * (d + 1),
                w.y == sy * (d + 1),
                sx == 1 || sx == -1,
                sy == 1 || sy == -1,
        ;
    } else {
        assert(v.x == signed(sx, s) && v.y == signed(sy, s));
        assert(v.x == sx * s && v.y == sy * s);
        if sx == 0 && sy == 0 {
            assert(v.x == 0 && v.y == 0);
            assert(mag2(v) == 0) by (nonlinear_arith)
                requires
                    v.x == 0,
                    v.y == 0,
                    mag2(v) == v.x * v.x + v.y * v.y,
            ;
        } else if sx == 0 {
            assert(mag2(v) == s * s) by (nonlinear_arith)
                requires
                    v.x == 0,
                    v.y == s || v.y == -s,
                    mag2(v) == v.x * v.x + v.y * v.y,
            ;
        } else {
            assert(mag2(v) == s * s) by (nonlinear_arith)
                requires
                    v.y == 0,
                    v.x == s || v.x == -s,
                    mag2(v) == v.x * v.x + v.y * v.y,
            ;
        }
    }
}

/// `r` is the integer square root of `n`.
pub open spec fn is_root(n: int, r: int) -> bool {
    0 <= r && r * r <= n && n < (r + 1) * (r + 1)
}

/// Every natural number has an integer square root.
pub proof fn lemma_isqrt_exists(n: int)
    requires
        0 <= n,
    ensures
        exists|r: int| #[trigger] is_root(n, r),
    decreases n,
{
    if n == 0 {
        assert(is_root(n, 0));
    } else {
        lemma_isqrt_exists(n - 1);
        let r = choose|r: int| #[trigger] is_root(n - 1, r);
        if (r + 1) * (r + 1) == n {
            assert(n < (r + 2) * (r + 2)) by (nonlinear_arith)
                requires
                    (r + 1) * (r + 1) == n,
                    r >= 0,
            ;
            assert(is_root(n, r + 1));
        } else {
            assert(is_root(n, r));
        }
    }
}

/// Every speed has a diagonal component.
pub proof fn lemma_diagonal_exists(speed: int)
    requires
        0 <= speed,
    ensures
        diagonal_component(speed, diagonal(speed)),
{
    let sq = speed * speed;
    assert(sq >= 0) by (nonlinear_arith)
        requires
            speed >= 0,
            sq == speed * speed,
    ;
    lemma_isqrt_exists(sq / 2);
    let d = choose|r: int| #[trigger] is_root(sq / 2, r);
    assert(2 * d * d <= sq && sq < 2 * (d + 1) * (d + 1)) by (nonlinear_arith)
        requires
            d * d <= sq / 2,
            sq / 2 < (d + 1) * (d + 1),
            sq >= 0,
    ;
    assert(diagonal_component(speed, d));
}

} // verus!
