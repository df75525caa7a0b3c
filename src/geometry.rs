use vstd::prelude::*;

verus! {

/// Fixed-point scale of a `Heading`: a component of `HEADING_ONE` stands for 1.0.
pub const HEADING_ONE: i64 = 1073741824;

/// Nanoseconds in one second; elapsed time is always given in nanoseconds.
pub const NANOS_PER_SEC: u64 = 1000000000;

/// A velocity, in length units per second (or, once rotated by a heading,
/// in units per second scaled by `HEADING_ONE`).
#[derive(Clone, Copy, Debug, PartialEq, Eq, Structural)]
pub struct Vec2 {
    pub x: i64,
    pub y: i64,
}

/// A position in fine units: a displacement is a velocity times nanoseconds,
/// added without any rounding.
#[derive(Clone, Copy, Debug, PartialEq, Eq, Structural)]
pub struct Point {
    pub x: i128,
    pub y: i128,
}

/// The direction a body faces, as its cosine and sine scaled by `HEADING_ONE`.
/// The caller derives it from a facing angle.
#[derive(Clone, Copy, Debug, PartialEq, Eq, Structural)]
pub struct Heading {
    pub cos: i64,
    pub sin: i64,
}

impl Heading {
    /// Each component is within one, and the length is one up to the
    /// rounding of each component to an integer.
    pub open spec fn wf(self) -> bool {
        &&& -HEADING_ONE <= self.cos <= HEADING_ONE
        &&& -HEADING_ONE <= self.sin <= HEADING_ONE
        &&& HEADING_ONE * HEADING_ONE - 2 * HEADING_ONE <= self.cos * self.cos + self.sin * self.sin
        &&& self.cos * self.cos + self.sin * self.sin <= HEADING_ONE * HEADING_ONE + 2 * HEADING_ONE
    }

    /// The heading of angle zero: no rotation at all.
    pub fn identity() -> (r: Heading)
        ensures
            r.wf(),
            r.cos == HEADING_ONE,
            r.sin == 0,
    {
        let r = Heading { cos: HEADING_ONE, sin: 0 };
        assert(r.cos * r.cos + r.sin * r.sin == HEADING_ONE * HEADING_ONE) by (nonlinear_arith)
            requires
                r.cos == HEADING_ONE,
                r.sin == 0,
        ;
        r
    }
}

impl Vec2 {
    /// Both components are at most `u32::MAX` in magnitude: the range of an
    /// unrotated velocity.
    pub open spec fn small(self) -> bool {
        &&& -(u32::MAX as int) <= self.x <= u32::MAX as int
        &&& -(u32::MAX as int) <= self.y <= u32::MAX as int
    }
}

/// Clamps a value into the range of `i128`.
pub open spec fn clamp_fine(v: int) -> int {
    if v < i128::MIN as int {
        i128::MIN as int
    } else if v > i128::MAX as int {
        i128::MAX as int
    } else {
        v
    }
}

/// Where a point moving at velocity `v` stands after `dt` nanoseconds;
/// coordinates saturate at the bounds of `i128`.
pub open spec fn moved(p: Point, v: Vec2, dt: int) -> Point {
    Point { x: clamp_fine(p.x + v.x * dt) as i128, y: clamp_fine(p.y + v.y * dt) as i128 }
}

/// `v` rotated by heading `h`: the rotation matrix [[cos, -sin], [sin, cos]]
/// applied to `v`, scaled by `HEADING_ONE`.
pub open spec fn rotated(h: Heading, v: Vec2) -> Vec2 {
    Vec2 { x: (h.cos * v.x - h.sin * v.y) as i64, y: (h.sin * v.x + h.cos * v.y) as i64 }
}

/// The squared length of a velocity.
pub open spec fn mag2(v: Vec2) -> int {
    v.x * v.x + v.y * v.y
}

/// One coordinate advanced by `v` for `dt` nanoseconds, saturating.
pub fn advance_coord(p: i128, v: i64, dt: u64) -> (r: i128)
    ensures
        r == clamp_fine(p + v * dt),
{
    let vi: i128 = v as i128;
    let di: i128 = dt as i128;
    assert(-0x8000_0000_0000_0000 <= vi <= 0x7fff_ffff_ffff_ffff);
    assert(0 <= di <= 0xffff_ffff_ffff_ffff);
    assert(-0x7fff_ffff_ffff_ffff_8000_0000_0000_0000 <= vi * di <= 0x7fff_ffff_ffff_fffe_8000_0000_0000_0001)
        by (nonlinear_arith)
        requires
            -0x8000_0000_0000_0000 <= vi <= 0x7fff_ffff_ffff_ffff,
            0 <= di <= 0xffff_ffff_ffff_ffff,
    ;
    let d: i128 = vi * di;
    if d > 0 && p > i128::MAX - d {
        i128::MAX
    } else if d < 0 && p < i128::MIN - d {
        i128::MIN
    } else {
        p + d
    }
}

/// A point advanced by velocity `v` for `dt` nanoseconds.
pub fn advance_point(p: Point, v: Vec2, dt: u64) -> (r: Point)
    ensures
        r == moved(p, v, dt as int),
{
    Point { x: advance_coord(p.x, v.x, dt), y: advance_coord(p.y, v.y, dt) }
}

/// Rotates an unrotated velocity by a heading.
pub fn rotate(h: Heading, v: Vec2) -> (r: Vec2)
    requires
        h.wf(),
        v.small(),
    ensures
        r == rotated(h, v),
        r.x == h.cos * v.x - h.sin * v.y,
        r.y == h.sin * v.x + h.cos * v.y,
{
    let c: i128 = h.cos as i128;
    let s: i128 = h.sin as i128;
    let vx: i128 = v.x as i128;
    let vy: i128 = v.y as i128;
    assert(-0x3fff_ffff_c000_0000 <= c * vx <= 0x3fff_ffff_c000_0000) by (nonlinear_arith)
        requires
            -0x4000_0000 <= c <= 0x4000_0000,
            -0xffff_ffff <= vx <= 0xffff_ffff,
    ;
    assert(-0x3fff_ffff_c000_0000 <= c * vy <= 0x3fff_ffff_c000_0000) by (nonlinear_arith)
        requires
            -0x4000_0000 <= c <= 0x4000_0000,
            -0xffff_ffff <= vy <= 0xffff_ffff,
    ;
    assert(-0x3fff_ffff_c000_0000 <= s * vx <= 0x3fff_ffff_c000_0000) by (nonlinear_arith)
        requires
            -0x4000_0000 <= s <= 0x4000_0000,
            -0xffff_ffff <= vx <= 0xffff_ffff,
    ;
    assert(-0x3fff_ffff_c000_0000 <= s * vy <= 0x3fff_ffff_c000_0000) by (nonlinear_arith)
        requires
            -0x4000_0000 <= s <= 0x4000_0000,
            -0xffff_ffff <= vy <= 0xffff_ffff,
    ;
    let x: i128 = c * vx - s * vy;
    let y: i128 = s * vx + c * vy;
    Vec2 { x: x as i64, y: y as i64 }
}

/// The integer square root: the largest `r` with `r * r <= n`.
pub fn isqrt(n: u64) -> (r: u64)
    ensures
        r * r <= n,
        n < (r + 1) * (r + 1),
{
    let mut lo: u64 = 0;
    let mut hi: u64 = 0x1_0000_0000;
    assert(n < hi * hi);
    while hi - lo > 1
        invariant
            lo < hi <= 0x1_0000_0000,
            lo * lo <= n,
            n < hi * hi,
        decreases hi - lo,
    {
        let mid: u64 = lo + (hi - lo) / 2;
        assert(mid * mid <= 0xffff_fffe_0000_0001) by (nonlinear_arith)
            requires
                mid < 0x1_0000_0000,
        ;
        if mid * mid <= n {
            lo = mid;
        } else {
            hi = mid;
        }
    }
    assert(hi == lo + 1);
    lo
}

} // verus!
