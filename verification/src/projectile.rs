use vstd::prelude::*;

use crate::math::{lemma_mul_mag_bound, lemma_tdiv1000_mag, scale_mul, tdiv1000, Transform, Vec2,
    MAX_MAG};

verus! {

/// Largest travel budget a projectile may carry, in milli-units.
pub const MAX_RANGE: i64 = 1_000_000_000_000;

/// A fired projectile: a unit-ish direction, a speed in milli-units per
/// second, and the distance budget left before it burns out.
#[derive(Clone, Copy, PartialEq, Eq, Structural, Debug)]
pub struct Projectile {
    pub direction: Vec2,
    pub speed: i64,
    pub range: i64,
}

impl Projectile {
    pub open spec fn wf(self) -> bool {
        &&& self.direction.mag_within(2000)
        &&& 0 <= self.speed <= MAX_MAG
        &&& -MAX_MAG <= self.range <= MAX_RANGE
    }
}

/// A count-down timer: `remaining` milliseconds until the next shot is
/// allowed. Zero means ready; firing resets it to the configured period.
#[derive(Clone, Copy, PartialEq, Eq, Structural, Debug)]
pub struct CooldownTimer {
    pub period: u32,
    pub remaining: u32,
}

/// Saturating count-down of a timer value.
pub open spec fn sat_sub(a: int, b: int) -> int {
    if a - b >= 0 {
        a - b
    } else {
        0
    }
}

impl CooldownTimer {
    /// A timer that starts ready.
    pub fn new(period: u32) -> (t: CooldownTimer)
        ensures
            t.period == period,
            t.remaining == 0,
    {
        CooldownTimer { period, remaining: 0 }
    }

    pub open spec fn ready(self) -> bool {
        self.remaining == 0
    }

    /// Count the timer down by one tick.
    pub fn tick(&mut self, dt: u32)
        ensures
            final(self).period == old(self).period,
            final(self).remaining == sat_sub(old(self).remaining as int, dt as int),
    {
        if self.remaining > dt {
            self.remaining = self.remaining - dt;
        } else {
            self.remaining = 0;
        }
    }
}

/// Per-shooter fire configuration and cooldown state.
#[derive(Clone, Copy, PartialEq, Eq, Structural, Debug)]
pub struct ProjectileShooter {
    pub projectile_speed: i64,
    pub projectile_range: i64,
    pub attack_speed: CooldownTimer,
}

impl ProjectileShooter {
    pub open spec fn wf(self) -> bool {
        &&& 0 <= self.projectile_speed <= MAX_MAG
        &&& 0 <= self.projectile_range <= MAX_RANGE
    }

    pub fn new(projectile_speed: i64, projectile_range: i64, period: u32) -> (s: ProjectileShooter)
        requires
            0 <= projectile_speed <= MAX_MAG,
            0 <= projectile_range <= MAX_RANGE,
        ensures
            s.projectile_speed == projectile_speed,
            s.projectile_range == projectile_range,
            s.attack_speed.period == period,
            s.attack_speed.remaining == 0,
            s.wf(),
    {
        ProjectileShooter {
            projectile_speed,
            projectile_range,
            attack_speed: CooldownTimer::new(period),
        }
    }

    /// Honor a fire request iff the cooldown has elapsed; on success the
    /// cooldown starts over. A request on cooldown is silently dropped.
    pub fn fire_if_ready(&mut self) -> (fired: bool)
        ensures
            fired == old(self).attack_speed.ready(),
            final(self).projectile_speed == old(self).projectile_speed,
            final(self).projectile_range == old(self).projectile_range,
            final(self).attack_speed.period == old(self).attack_speed.period,
            fired ==> final(self).attack_speed.remaining == old(self).attack_speed.period,
            !fired ==> final(self).attack_speed.remaining == old(self).attack_speed.remaining,
    {
        if self.attack_speed.remaining == 0 {
            self.attack_speed.remaining = self.attack_speed.period;
            true
        } else {
            false
        }
    }
}

/// A fire request raised by player input, pointing along the shooter's
/// facing direction. A request whose shooter has already despawned in the
/// same tick is a no-op.
#[derive(Clone, Copy, PartialEq, Eq, Structural, Debug)]
pub struct ShootProjectileEvent {
    pub spawn_position: Vec2,
    pub direction: Vec2,
    pub shooter: u64,
}

/// Distance a projectile covers in one tick, in milli-units.
pub open spec fn travel_spec(speed: int, dt: int) -> int {
    tdiv1000(speed * dt)
}

/// Advance a projectile for one tick: move it along its direction, charge
/// the distance against its range budget, and report whether it has burnt
/// out. Its rotation is presentation-derived from the direction and is not
/// simulated here.
pub fn projectile_step(transform: &mut Transform, p: &mut Projectile, dt: u32) -> (burnt_out:
    bool)
    requires
        old(p).wf(),
        old(p).range >= 0,
        old(transform).pos.mag_within(MAX_MAG as int),
        dt <= 1000,
    ensures
        final(p).direction == old(p).direction,
        final(p).speed == old(p).speed,
        final(p).range == old(p).range - travel_spec(old(p).speed as int, dt as int),
        final(p).wf(),
        burnt_out == (final(p).range <= 0),
        final(transform).pos.x == old(transform).pos.x + tdiv1000(
            old(p).direction.x * travel_spec(old(p).speed as int, dt as int),
        ),
        final(transform).pos.y == old(transform).pos.y + tdiv1000(
            old(p).direction.y * travel_spec(old(p).speed as int, dt as int),
        ),
        final(transform).rot == old(transform).rot,
        final(transform).scale == old(transform).scale,
        final(transform).pos.mag_within(3 * MAX_MAG as int),
{
    let travel: i64 = scale_mul(p.speed, dt as i64);
    proof {
        lemma_mul_mag_bound(p.speed as int, dt as int, MAX_MAG as int, 1000);
        assert(p.speed * dt >= 0) by (nonlinear_arith)
            requires
                p.speed >= 0,
                dt >= 0,
        ;
    }
    let mv_x: i64 = scale_mul(p.direction.x, travel);
    let mv_y: i64 = scale_mul(p.direction.y, travel);
    proof {
        lemma_mul_mag_bound(p.direction.x as int, travel as int, 2000, MAX_MAG as int);
        lemma_mul_mag_bound(p.direction.y as int, travel as int, 2000, MAX_MAG as int);
        lemma_tdiv1000_mag(p.direction.x * travel);
        lemma_tdiv1000_mag(p.direction.y * travel);
    }
    transform.pos = Vec2 { x: transform.pos.x + mv_x, y: transform.pos.y + mv_y };
    p.range = p.range - travel;
    p.range <= 0
}

/// The range budget strictly decreases every tick in which the projectile
/// covers any distance at all, and the step reports burn-out exactly when
/// the budget is exhausted, never before.
pub proof fn lemma_projectile_range_decreases(range: int, speed: int, dt: int)
    requires
        speed >= 0,
        dt >= 0,
    ensures
        range - travel_spec(speed, dt) <= range,
        speed * dt >= 1000 ==> range - travel_spec(speed, dt) < range,
{
    assert(speed * dt >= 0) by (nonlinear_arith)
        requires
            speed >= 0,
            dt >= 0,
    ;
    if speed * dt >= 1000 {
        assert((speed * dt) / 1000 >= 1);
    }
}

/// Timer value left after a sequence of ticks.
pub open spec fn remaining_after_ticks(r: int, dts: Seq<int>) -> int
    decreases dts.len(),
{
    if dts.len() == 0 {
        r
    } else {
        remaining_after_ticks(sat_sub(r, dts[0]), dts.drop_first())
    }
}

pub open spec fn sum_seq(dts: Seq<int>) -> int
    decreases dts.len(),
{
    if dts.len() == 0 {
        0
    } else {
        dts[0] + sum_seq(dts.drop_first())
    }
}

pub proof fn lemma_sum_seq_nonneg(dts: Seq<int>)
    requires
        forall|i: int| 0 <= i < dts.len() ==> dts[i] >= 0,
    ensures
        sum_seq(dts) >= 0,
    decreases dts.len(),
{
    if dts.len() > 0 {
        lemma_sum_seq_nonneg(dts.drop_first());
    }
}

/// Ticking a timer down is the same as subtracting the total elapsed time,
/// saturating at zero.
pub proof fn lemma_remaining_after_ticks(r: int, dts: Seq<int>)
    requires
        r >= 0,
        forall|i: int| 0 <= i < dts.len() ==> dts[i] >= 0,
    ensures
        remaining_after_ticks(r, dts) == sat_sub(r, sum_seq(dts)),
    decreases dts.len(),
{
    if dts.len() > 0 {
        assert(forall|i: int|
            0 <= i < dts.drop_first().len() ==> dts.drop_first()[i] == dts[i + 1]);
        lemma_remaining_after_ticks(sat_sub(r, dts[0]), dts.drop_first());
        lemma_sum_seq_nonneg(dts.drop_first());
    }
}

/// The cooldown gate: after a successful shot resets the timer to its
/// period, a second request that arrives after ticks totalling less than the
/// period finds the shooter still on cooldown and is dropped, so the two
/// requests yield exactly one projectile; a second request after at least
/// the full period finds the shooter ready again, yielding two.
pub proof fn lemma_cooldown_gates_second_shot(period: int, dts: Seq<int>)
    requires
        period >= 0,
        forall|i: int| 0 <= i < dts.len() ==> dts[i] >= 0,
    ensures
        sum_seq(dts) < period ==> remaining_after_ticks(period, dts) > 0,
        sum_seq(dts) >= period ==> remaining_after_ticks(period, dts) == 0,
{
    lemma_remaining_after_ticks(period, dts);
}

} // verus!
