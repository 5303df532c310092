use vstd::prelude::*;

use crate::collision::Collider;
use crate::math::{lemma_mul_mag_bound, lemma_tdiv1000_mag, norm_angle, norm_angle_spec, scale_mul,
    tdiv1000, Transform, Vec2, MAX_MAG};
use crate::sim::{AsteroidEntity, World};
use crate::world::WrapAround;

verus! {

/// Collider half-extent and sprite scale per tier: a tier-`t` asteroid is
/// drawn at scale `t` and collides as a box of half-extent `12.8 * t` units.
pub const ASTEROID_COLLIDER_PER_TIER: i64 = 12_800;

pub const ASTEROID_SCALE_PER_TIER: i64 = 1_000;

/// Largest spawn speed an asteroid may be given, in milli-units per second.
pub const MAX_ASTEROID_SPEED: i64 = 500_000_000;

/// Largest size class an asteroid may have.
pub const MAX_TIER: u16 = 1000;

/// An asteroid: a fixed drift velocity set at spawn, a spin, a size class
/// (`tier`), and the hit points left (`hits`). Hits start equal to the tier
/// and only ever go down; an asteroid at zero hits is destroyed and is
/// removed at the end of the tick.
#[derive(Clone, Copy, PartialEq, Eq, Structural, Debug)]
pub struct Asteroid {
    pub rotation_speed: i64,
    pub velocity: Vec2,
    pub tier: u16,
    pub hits: u16,
}

impl Asteroid {
    pub open spec fn wf(self) -> bool {
        &&& 1 <= self.tier <= MAX_TIER
        &&& self.hits <= self.tier
        &&& -MAX_MAG <= self.rotation_speed <= MAX_MAG
        &&& self.velocity.mag_within(MAX_MAG as int)
    }
}

/// Recorded when an asteroid's hits reach zero: who was destroyed, how big
/// it was, and where, so the splitter can seed the children there.
#[derive(Clone, Copy, PartialEq, Eq, Structural, Debug)]
pub struct AsteroidDestructionEvent {
    pub entity: u64,
    pub asteroid_tier: u16,
    pub destruction_point: Vec2,
}

impl AsteroidDestructionEvent {
    pub open spec fn wf(self) -> bool {
        &&& 1 <= self.asteroid_tier <= MAX_TIER
        &&& self.destruction_point.mag_within(MAX_MAG as int)
    }
}

/// How many children a destroyed asteroid of the given tier splits into:
/// four for the largest classes, two for the middle ones, none for the
/// smallest.
pub open spec fn split_count_spec(tier: int) -> int {
    if tier >= 6 {
        4
    } else if tier > 1 {
        2
    } else {
        0
    }
}

pub fn split_count(tier: u16) -> (n: usize)
    ensures
        n == split_count_spec(tier as int),
{
    if tier >= 6 {
        4
    } else if tier > 1 {
        2
    } else {
        0
    }
}

/// The splitting law over all tiers: a destroyed asteroid of tier six or
/// above yields four children, of a tier strictly between one and six two,
/// and of tier one or below none.
pub proof fn lemma_splitting_law(tier: int)
    ensures
        tier >= 6 ==> split_count_spec(tier) == 4,
        1 < tier < 6 ==> split_count_spec(tier) == 2,
        tier <= 1 ==> split_count_spec(tier) == 0,
{
}

/// Hits left after absorbing `n` projectile collisions in one tick, clamped
/// at zero.
pub open spec fn damaged_hits_spec(hits: int, n: int) -> int {
    if n >= hits {
        0
    } else {
        hits - n
    }
}

/// Absorb `n` projectile collisions: hits go down one per collision, never
/// below zero. Reports a destruction exactly when this damage takes a still
/// living asteroid to zero, so the destruction of one asteroid is recorded
/// exactly once.
pub fn apply_damage(a: &mut Asteroid, n: usize) -> (destroyed: bool)
    requires
        old(a).wf(),
    ensures
        final(a).hits == damaged_hits_spec(old(a).hits as int, n as int),
        final(a).tier == old(a).tier,
        final(a).rotation_speed == old(a).rotation_speed,
        final(a).velocity == old(a).velocity,
        final(a).wf(),
        destroyed == (old(a).hits > 0 && final(a).hits == 0),
{
    if n as u64 >= a.hits as u64 {
        let was_alive: bool = a.hits > 0;
        a.hits = 0;
        was_alive
    } else {
        a.hits = a.hits - n as u16;
        false
    }
}

/// Damage never raises the hit count, never drives it negative, and crosses
/// zero at most once: every later tick starts from the already lowered
/// count.
pub proof fn lemma_hits_monotone(hits: int, n: int)
    requires
        hits >= 0,
        n >= 0,
    ensures
        0 <= damaged_hits_spec(hits, n) <= hits,
        damaged_hits_spec(hits, n) == 0 <==> n >= hits,
{
}

/// The asteroid entity a spawn builds: at rest rotationally, drifting at
/// `direction * speed`, with hits equal to the tier and a collider and scale
/// that grow with the tier.
pub open spec fn spawned_asteroid_spec(
    id: u64,
    tier: u16,
    rotation_speed: i64,
    speed: i64,
    direction: Vec2,
    position: Vec2,
    sprite_index: usize,
) -> AsteroidEntity {
    AsteroidEntity {
        id,
        transform: Transform {
            pos: position,
            rot: 0i64,
            scale: (tier * ASTEROID_SCALE_PER_TIER) as i64,
        },
        asteroid: Asteroid {
            rotation_speed,
            velocity: Vec2 {
                x: tdiv1000(direction.x * speed) as i64,
                y: tdiv1000(direction.y * speed) as i64,
            },
            tier,
            hits: tier,
        },
        collider: Collider {
            bounds: Vec2 {
                x: (tier * ASTEROID_COLLIDER_PER_TIER) as i64,
                y: (tier * ASTEROID_COLLIDER_PER_TIER) as i64,
            },
        },
        wrap: WrapAround,
        sprite_index,
    }
}

/// Build an asteroid entity from plain spawn parameters.
pub fn build_asteroid(
    id: u64,
    tier: u16,
    rotation_speed: i64,
    speed: i64,
    direction: Vec2,
    position: Vec2,
    sprite_index: usize,
) -> (e: AsteroidEntity)
    requires
        1 <= tier <= MAX_TIER,
        -MAX_MAG <= rotation_speed <= MAX_MAG,
        0 <= speed <= MAX_ASTEROID_SPEED,
        direction.mag_within(2000),
    ensures
        e == spawned_asteroid_spec(id, tier, rotation_speed, speed, direction, position,
            sprite_index),
        e.wf(),
{
    let vx: i64 = scale_mul(direction.x, speed);
    let vy: i64 = scale_mul(direction.y, speed);
    proof {
        lemma_mul_mag_bound(direction.x as int, speed as int, 2000, MAX_ASTEROID_SPEED as int);
        lemma_mul_mag_bound(direction.y as int, speed as int, 2000, MAX_ASTEROID_SPEED as int);
        lemma_tdiv1000_mag(direction.x * speed);
        lemma_tdiv1000_mag(direction.y * speed);
    }
    AsteroidEntity {
        id,
        transform: Transform {
            pos: position,
            rot: 0,
            scale: tier as i64 * ASTEROID_SCALE_PER_TIER,
        },
        asteroid: Asteroid { rotation_speed, velocity: Vec2 { x: vx, y: vy }, tier, hits: tier },
        collider: Collider {
            bounds: Vec2 {
                x: tier as i64 * ASTEROID_COLLIDER_PER_TIER,
                y: tier as i64 * ASTEROID_COLLIDER_PER_TIER,
            },
        },
        wrap: WrapAround,
        sprite_index,
    }
}

/// Queue a new asteroid for spawning at the end of the tick.
pub fn spawn_asteroid(
    world: &mut World,
    tier: u16,
    rotation_speed: i64,
    speed: i64,
    direction: Vec2,
    position: Vec2,
    sprite_index: usize,
)
    requires
        old(world).wf(),
        1 <= tier <= MAX_TIER,
        -MAX_MAG <= rotation_speed <= MAX_MAG,
        0 <= speed <= MAX_ASTEROID_SPEED,
        direction.mag_within(2000),
        old(world).bounds.contains(position),
        old(world).next_id < u64::MAX,
    ensures
        final(world).pending_asteroids@ == old(world).pending_asteroids@.push(
            spawned_asteroid_spec(old(world).next_id, tier, rotation_speed, speed, direction,
                position, sprite_index),
        ),
        final(world).next_id == old(world).next_id + 1,
        final(world).bounds == old(world).bounds,
        final(world).asteroid_variants == old(world).asteroid_variants,
        final(world).ship == old(world).ship,
        final(world).asteroids@ == old(world).asteroids@,
        final(world).projectiles@ == old(world).projectiles@,
        final(world).pending_projectiles@ == old(world).pending_projectiles@,
        final(world).destruction_events@ == old(world).destruction_events@,
        final(world).wf(),
{
    let e = build_asteroid(world.next_id, tier, rotation_speed, speed, direction, position,
        sprite_index);
    world.pending_asteroids.push(e);
    world.next_id = world.next_id + 1;
}

/// Drift an asteroid for one tick: the velocity is fixed for life, the
/// position advances by it, and the sprite spins at the stored rate.
pub fn asteroid_movement(transform: &mut Transform, a: &Asteroid, dt: u32)
    requires
        a.wf(),
        old(transform).wf(),
        old(transform).pos.mag_within(MAX_MAG as int),
        dt <= 1000,
    ensures
        final(transform).pos.x == old(transform).pos.x + tdiv1000(a.velocity.x * dt),
        final(transform).pos.y == old(transform).pos.y + tdiv1000(a.velocity.y * dt),
        final(transform).rot == norm_angle_spec(
            old(transform).rot + tdiv1000(a.rotation_speed * dt),
        ),
        final(transform).scale == old(transform).scale,
        final(transform).wf(),
        final(transform).pos.mag_within(2 * MAX_MAG as int),
{
    let mv_x: i64 = scale_mul(a.velocity.x, dt as i64);
    let mv_y: i64 = scale_mul(a.velocity.y, dt as i64);
    let spin: i64 = scale_mul(a.rotation_speed, dt as i64);
    proof {
        lemma_mul_mag_bound(a.velocity.x as int, dt as int, MAX_MAG as int, 1000);
        lemma_mul_mag_bound(a.velocity.y as int, dt as int, MAX_MAG as int, 1000);
        lemma_mul_mag_bound(a.rotation_speed as int, dt as int, MAX_MAG as int, 1000);
        lemma_tdiv1000_mag(a.velocity.x * dt);
        lemma_tdiv1000_mag(a.velocity.y * dt);
        lemma_tdiv1000_mag(a.rotation_speed * dt);
    }
    transform.pos = Vec2 { x: transform.pos.x + mv_x, y: transform.pos.y + mv_y };
    transform.rot = norm_angle(transform.rot + spin);
}

} // verus!
