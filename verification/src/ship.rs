use vstd::prelude::*;

use crate::math::{
    div1000, lemma_mul_mag_bound, lemma_tdiv1000_mag, mag, norm_angle, norm_angle_spec, scale_mul,
    tdiv1000, Transform, Vec2, MAX_MAG, TAU_MILLI,
};

verus! {

/// The player's ship. Rates are per-second fixed-point values; `velocity` is
/// in milli-units per second and relaxes each tick toward either the top
/// speed (thrusting) or rest (idle).
#[derive(Clone, Copy, PartialEq, Eq, Structural, Debug)]
pub struct Ship {
    pub friction: i64,
    pub acceleration: i64,
    pub speed: i64,
    pub rotation_speed: i64,
    pub moving: bool,
    pub velocity: Vec2,
}

impl Ship {
    pub open spec fn wf(self) -> bool {
        &&& 0 <= self.friction <= MAX_MAG
        &&& 0 <= self.acceleration <= MAX_MAG
        &&& 0 <= self.speed <= MAX_MAG
        &&& 0 <= self.rotation_speed <= MAX_MAG
        &&& self.velocity.mag_within(MAX_MAG as int)
    }

    /// A ship at rest, not thrusting.
    pub fn new(friction: i64, acceleration: i64, speed: i64, rotation_speed: i64) -> (s: Ship)
        requires
            0 <= friction <= MAX_MAG,
            0 <= acceleration <= MAX_MAG,
            0 <= speed <= MAX_MAG,
            0 <= rotation_speed <= MAX_MAG,
        ensures
            s.friction == friction,
            s.acceleration == acceleration,
            s.speed == speed,
            s.rotation_speed == rotation_speed,
            s.moving == false,
            s.velocity == (Vec2 { x: 0i64, y: 0i64 }),
            s.wf(),
    {
        Ship { friction, acceleration, speed, rotation_speed, moving: false, velocity: Vec2 { x: 0, y: 0 } }
    }
}

/// The player's sampled controls for one tick, plus the unit heading vector
/// the presentation layer derives from the ship's current rotation (the
/// trigonometry is floating point and stays outside the library).
#[derive(Clone, Copy, PartialEq, Eq, Structural, Debug)]
pub struct ShipInput {
    pub forward: bool,
    pub rotate_left: bool,
    pub rotate_right: bool,
    pub fire: bool,
    pub heading: Vec2,
}

impl ShipInput {
    pub open spec fn wf(self) -> bool {
        self.heading.mag_within(1000)
    }
}

/// Exponential-relaxation factor for one tick, in milli-fraction, clamped to
/// at most a full step.
pub open spec fn lerp_factor_spec(rate: int, dt: int) -> int {
    if tdiv1000(rate * dt) >= 1000 {
        1000
    } else {
        tdiv1000(rate * dt)
    }
}

/// One component of a linear interpolation by a milli-fraction `t`.
pub open spec fn lerp1_spec(v: int, target: int, t: int) -> int {
    v + tdiv1000((target - v) * t)
}

/// Interpolation never overshoots: for a factor within one step, the result
/// lies between the start and the target.
pub proof fn lemma_lerp1_between(v: int, target: int, t: int)
    requires
        0 <= t <= 1000,
    ensures
        v <= target ==> v <= lerp1_spec(v, target, t) <= target,
        target <= v ==> target <= lerp1_spec(v, target, t) <= v,
{
    let d = target - v;
    if d >= 0 {
        assert(0 <= d * t <= d * 1000) by (nonlinear_arith)
            requires
                d >= 0,
                0 <= t <= 1000,
        ;
        assert(tdiv1000(d * t) == (d * t) / 1000);
        assert(1000 * ((d * t) / 1000) <= d * t) by (nonlinear_arith)
            requires
                d * t >= 0,
        ;
        assert((d * t) / 1000 >= 0) by (nonlinear_arith)
            requires
                d * t >= 0,
        ;
        assert((d * t) / 1000 <= d) by {
            if (d * t) / 1000 > d {
                assert(1000 * ((d * t) / 1000) >= 1000 * (d + 1)) by (nonlinear_arith)
                    requires
                        (d * t) / 1000 >= d + 1,
                ;
            }
        };
    } else {
        assert(d * 1000 <= d * t && d * t <= 0) by (nonlinear_arith)
            requires
                d < 0,
                0 <= t <= 1000,
        ;
        let e = -(d * t);
        assert(tdiv1000(d * t) == -(e / 1000));
        assert(1000 * (e / 1000) <= e) by (nonlinear_arith)
            requires
                e >= 0,
        ;
        assert(e / 1000 >= 0) by (nonlinear_arith)
            requires
                e >= 0,
        ;
        assert(e / 1000 <= -d) by {
            if e / 1000 > -d {
                assert(1000 * (e / 1000) >= 1000 * (-d + 1)) by (nonlinear_arith)
                    requires
                        e / 1000 >= -d + 1,
                ;
            }
        };
    }
}

/// The ship's velocity after one tick of relaxation: toward `(speed, speed)`
/// while thrusting, toward rest otherwise.
pub open spec fn ship_velocity_after(ship: Ship, dt: int) -> Vec2 {
    let rate = if ship.moving {
        ship.acceleration
    } else {
        ship.friction
    };
    let target = if ship.moving {
        ship.speed
    } else {
        0
    };
    let t = lerp_factor_spec(rate as int, dt);
    Vec2 {
        x: lerp1_spec(ship.velocity.x as int, target as int, t) as i64,
        y: lerp1_spec(ship.velocity.y as int, target as int, t) as i64,
    }
}

/// Clamped relaxation factor for one tick.
fn lerp_factor(rate: i64, dt: u32) -> (t: i64)
    requires
        0 <= rate <= MAX_MAG,
        dt <= 1000,
    ensures
        t == lerp_factor_spec(rate as int, dt as int),
        0 <= t <= 1000,
{
    let raw: i64 = scale_mul(rate, dt as i64);
    proof {
        assert(rate * dt >= 0) by (nonlinear_arith)
            requires
                rate >= 0,
                dt >= 0,
        ;
    }
    if raw >= 1000 {
        1000
    } else {
        raw
    }
}

/// One component of the interpolation, executable.
fn lerp1(v: i64, target: i64, t: i64) -> (r: i64)
    requires
        mag(v as int) <= MAX_MAG,
        mag(target as int) <= MAX_MAG,
        0 <= t <= 1000,
    ensures
        r == lerp1_spec(v as int, target as int, t as int),
        mag(r as int) <= MAX_MAG,
{
    let d: i64 = target - v;
    let dm: i64 = scale_mul(d, t);
    proof {
        lemma_lerp1_between(v as int, target as int, t as int);
    }
    v + dm
}

/// Advance the ship for one tick: relax the velocity, then move the position
/// along the supplied heading, component by component. The rotation is not
/// touched here; player input turns the ship.
pub fn ship_movement(transform: &mut Transform, ship: &mut Ship, heading: Vec2, dt: u32)
    requires
        old(ship).wf(),
        old(transform).pos.mag_within(MAX_MAG as int),
        heading.mag_within(1000),
        dt <= 1000,
    ensures
        final(ship).velocity == ship_velocity_after(*old(ship), dt as int),
        final(ship).friction == old(ship).friction,
        final(ship).acceleration == old(ship).acceleration,
        final(ship).speed == old(ship).speed,
        final(ship).rotation_speed == old(ship).rotation_speed,
        final(ship).moving == old(ship).moving,
        final(ship).wf(),
        final(transform).pos.x == old(transform).pos.x + tdiv1000(
            heading.x * tdiv1000(final(ship).velocity.x * dt),
        ),
        final(transform).pos.y == old(transform).pos.y + tdiv1000(
            heading.y * tdiv1000(final(ship).velocity.y * dt),
        ),
        final(transform).rot == old(transform).rot,
        final(transform).scale == old(transform).scale,
        final(transform).pos.mag_within(2 * MAX_MAG as int),
{
    let rate: i64 = if ship.moving {
        ship.acceleration
    } else {
        ship.friction
    };
    let target: i64 = if ship.moving {
        ship.speed
    } else {
        0
    };
    let t: i64 = lerp_factor(rate, dt);
    let vx: i64 = lerp1(ship.velocity.x, target, t);
    let vy: i64 = lerp1(ship.velocity.y, target, t);
    ship.velocity = Vec2 { x: vx, y: vy };

    let step_x: i64 = scale_mul(vx, dt as i64);
    let step_y: i64 = scale_mul(vy, dt as i64);
    proof {
        lemma_mul_mag_bound(vx as int, dt as int, MAX_MAG as int, 1000);
        lemma_mul_mag_bound(vy as int, dt as int, MAX_MAG as int, 1000);
    }
    let mv_x: i64 = scale_mul(heading.x, step_x);
    let mv_y: i64 = scale_mul(heading.y, step_y);
    proof {
        lemma_mul_mag_bound(heading.x as int, step_x as int, 1000, MAX_MAG as int);
        lemma_mul_mag_bound(heading.y as int, step_y as int, 1000, MAX_MAG as int);
    }
    transform.pos = Vec2 { x: transform.pos.x + mv_x, y: transform.pos.y + mv_y };
}

/// The ship's rotation after one tick of turning input: left and right turns
/// cancel, and the result is reduced to one turn.
pub open spec fn rot_after_input_spec(
    rot: int,
    rotation_speed: int,
    rotate_left: bool,
    rotate_right: bool,
    dt: int,
) -> int {
    let step = tdiv1000(rotation_speed * dt);
    let left = if rotate_left {
        step
    } else {
        0
    };
    let right = if rotate_right {
        step
    } else {
        0
    };
    norm_angle_spec(rot + left - right)
}

/// Turn the ship by the player's held rotation keys.
pub fn apply_rotation_input(
    transform: &mut Transform,
    rotation_speed: i64,
    rotate_left: bool,
    rotate_right: bool,
    dt: u32,
) -> (r: ())
    requires
        old(transform).wf(),
        0 <= rotation_speed <= MAX_MAG,
        dt <= 1000,
    ensures
        final(transform).rot == rot_after_input_spec(
            old(transform).rot as int,
            rotation_speed as int,
            rotate_left,
            rotate_right,
            dt as int,
        ),
        final(transform).wf(),
        final(transform).pos == old(transform).pos,
        final(transform).scale == old(transform).scale,
{
    let step: i64 = scale_mul(rotation_speed, dt as i64);
    proof {
        lemma_mul_mag_bound(rotation_speed as int, dt as int, MAX_MAG as int, 1000);
        lemma_tdiv1000_mag(rotation_speed * dt);
    }
    let left: i64 = if rotate_left {
        step
    } else {
        0
    };
    let right: i64 = if rotate_right {
        step
    } else {
        0
    };
    transform.rot = norm_angle(transform.rot + left - right);
}

/// Sprite frame for the ship: frame 1 while thrusting, frame 0 at rest.
pub fn ship_animation_frame(moving: bool) -> (r: usize)
    ensures
        r == if moving {
            1usize
        } else {
            0usize
        },
{
    if moving {
        1
    } else {
        0
    }
}

} // verus!
