use vstd::prelude::*;

verus! {

/// All world quantities are fixed-point integers:
/// - positions and collider extents in milli-units,
/// - linear speeds in milli-units per second,
/// - angles in milli-radians, angular speeds in milli-radians per second,
/// - time deltas in milliseconds.
/// Advancing a position by a speed over a time delta therefore divides the
/// product by 1000 once, truncating toward zero.
pub const SCALE: i64 = 1000;

/// One full turn, in milli-radians.
pub const TAU_MILLI: i64 = 6283;

/// Largest magnitude admitted for any stored speed or extent, generous enough
/// that every product formed by the simulation fits in an `i64`.
pub const MAX_MAG: i64 = 1_000_000_000;

/// A two-dimensional vector of fixed-point coordinates.
#[derive(Clone, Copy, PartialEq, Eq, Structural, Debug)]
pub struct Vec2 {
    pub x: i64,
    pub y: i64,
}

impl Vec2 {
    pub fn new(x: i64, y: i64) -> (r: Vec2)
        ensures
            r.x == x,
            r.y == y,
    {
        Vec2 { x, y }
    }

    pub open spec fn mag_within(self, m: int) -> bool {
        mag(self.x as int) <= m && mag(self.y as int) <= m
    }
}

/// Position, rotation and sprite scale of an entity. Rotation is kept
/// reduced to `[0, TAU_MILLI)`; scale is cosmetic and never changes after
/// spawn.
#[derive(Clone, Copy, PartialEq, Eq, Structural, Debug)]
pub struct Transform {
    pub pos: Vec2,
    pub rot: i64,
    pub scale: i64,
}

impl Transform {
    pub open spec fn wf(self) -> bool {
        0 <= self.rot < TAU_MILLI && 0 <= self.scale <= MAX_MAG
    }
}

/// Magnitude of an integer.
pub open spec fn mag(x: int) -> int {
    if x < 0 {
        -x
    } else {
        x
    }
}

/// Division by 1000 that truncates toward zero, as the executable code does.
pub open spec fn tdiv1000(v: int) -> int {
    if v >= 0 {
        v / 1000
    } else {
        -((-v) / 1000)
    }
}

pub proof fn lemma_mul_mag_bound(a: int, b: int, bound_a: int, bound_b: int)
    requires
        mag(a) <= bound_a,
        mag(b) <= bound_b,
    ensures
        mag(a * b) <= bound_a * bound_b,
{
    assert(mag(a * b) <= bound_a * bound_b) by (nonlinear_arith)
        requires
            mag(a) <= bound_a,
            mag(b) <= bound_b,
    ;
}

pub proof fn lemma_tdiv1000_mag(v: int)
    ensures
        1000 * mag(tdiv1000(v)) <= mag(v),
        mag(tdiv1000(v)) <= mag(v),
{
    if v >= 0 {
        assert(1000 * (v / 1000) <= v) by (nonlinear_arith)
            requires
                v >= 0,
        ;
    } else {
        assert(1000 * ((-v) / 1000) <= -v) by (nonlinear_arith)
            requires
                -v >= 0,
        ;
    }
}

/// Truncating division of a fixed-point value by the scale.
pub fn div1000(v: i64) -> (r: i64)
    requires
        i64::MIN < v,
    ensures
        r == tdiv1000(v as int),
{
    if v >= 0 {
        v / 1000
    } else {
        -((-v) / 1000)
    }
}

/// `tdiv1000(a * b)`: scales a fixed-point product back down, e.g. a speed
/// times a time delta, or a unit-vector component times a length.
pub fn scale_mul(a: i64, b: i64) -> (r: i64)
    requires
        mag(a as int) <= 2_000_000_000,
        mag(b as int) <= 2_000_000_000,
    ensures
        r == tdiv1000(a * b),
        mag(r as int) <= mag(a * b) / 1000,
{
    proof {
        lemma_mul_mag_bound(a as int, b as int, 2_000_000_000, 2_000_000_000);
    }
    let p: i64 = a * b;
    proof {
        lemma_tdiv1000_mag(p as int);
    }
    div1000(p)
}

/// An angle reduced to `[0, TAU_MILLI)`; negative angles come out measured
/// back from a full turn, so the reduction is exact, not truncating.
pub open spec fn norm_angle_spec(a: int) -> int {
    if a >= 0 {
        a % 6283
    } else if (-a) % 6283 == 0 {
        0
    } else {
        6283 - ((-a) % 6283)
    }
}

/// Reduce an accumulated rotation to one turn.
pub fn norm_angle(a: i64) -> (r: i64)
    requires
        i64::MIN < a,
    ensures
        r == norm_angle_spec(a as int),
        0 <= r < TAU_MILLI,
{
    if a >= 0 {
        a % 6283
    } else {
        let m: i64 = (-a) % 6283;
        if m == 0 {
            0
        } else {
            6283 - m
        }
    }
}

} // verus!
