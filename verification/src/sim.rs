use vstd::prelude::*;

use crate::asteroid::{apply_damage, asteroid_movement, build_asteroid, damaged_hits_spec,
    spawn_asteroid, spawned_asteroid_spec, split_count, split_count_spec, Asteroid,
    AsteroidDestructionEvent};
use crate::collision::{aabb_overlap, aabb_overlap_spec, Collider};
use crate::math::{lemma_mul_mag_bound, lemma_tdiv1000_mag, norm_angle_spec, tdiv1000, Transform,
    Vec2, MAX_MAG};
use crate::player::Player;
use crate::projectile::{projectile_step, sat_sub, travel_spec, CooldownTimer, Projectile,
    ProjectileShooter, ShootProjectileEvent};
use crate::rng::{rng_from_seed, rng_range_i64};
use crate::ship::{apply_rotation_input, rot_after_input_spec, ship_movement, ship_velocity_after,
    Ship, ShipInput};
use crate::world::{lemma_contained_mag, wrap_position, wrap_position_spec, WorldBounds,
    WrapAround};

verus! {

/// Reference ship configuration: relaxation rates, top speed and turn rate
/// (per-second fixed-point values), collider half-extent and sprite scale.
pub const SHIP_FRICTION: i64 = 2_000;

pub const SHIP_ACCELERATION: i64 = 8_000;

pub const SHIP_SPEED: i64 = 5_000;

pub const SHIP_ROTATION_SPEED: i64 = 2_000;

pub const SHIP_COLLIDER: i64 = 64_000;

pub const SHIP_SCALE: i64 = 4_000;

/// Reference shooter configuration: projectile speed and travel budget in
/// milli-units, cooldown period in milliseconds.
pub const SHIP_PROJECTILE_SPEED: i64 = 500_000;

pub const SHIP_PROJECTILE_RANGE: i64 = 500_000;

pub const SHIP_ATTACK_PERIOD: u32 = 300;

/// Collider half-extent and sprite scale of a projectile.
pub const PROJECTILE_COLLIDER: i64 = 16_000;

pub const PROJECTILE_SCALE: i64 = 2_000;

/// The player's ship with its attached components. `dead` marks it for
/// removal at the end of the tick.
#[derive(Clone, Copy)]
pub struct ShipEntity {
    pub id: u64,
    pub transform: Transform,
    pub ship: Ship,
    pub collider: Collider,
    pub shooter: ProjectileShooter,
    pub player: Player,
    pub wrap: WrapAround,
    pub dead: bool,
}

impl ShipEntity {
    pub open spec fn wf(self) -> bool {
        &&& self.ship.wf()
        &&& self.collider.wf()
        &&& self.transform.wf()
        &&& self.shooter.wf()
    }
}

/// An asteroid with its attached components. An asteroid at zero hits is
/// destroyed and is removed at the end of the tick.
#[derive(Clone, Copy)]
pub struct AsteroidEntity {
    pub id: u64,
    pub transform: Transform,
    pub asteroid: Asteroid,
    pub collider: Collider,
    pub wrap: WrapAround,
    pub sprite_index: usize,
}

impl AsteroidEntity {
    pub open spec fn wf(self) -> bool {
        &&& self.asteroid.wf()
        &&& self.collider.wf()
        &&& self.transform.wf()
    }
}

/// A projectile with its attached components. `dead` marks it as spent or
/// burnt out, for removal at the end of the tick.
#[derive(Clone, Copy)]
pub struct ProjectileEntity {
    pub id: u64,
    pub transform: Transform,
    pub projectile: Projectile,
    pub collider: Collider,
    pub wrap: WrapAround,
    pub dead: bool,
}

impl ProjectileEntity {
    pub open spec fn wf(self) -> bool {
        &&& self.projectile.wf()
        &&& self.collider.wf()
        &&& self.transform.wf()
        &&& (!self.dead ==> self.projectile.range >= 0)
    }
}

/// The whole simulation state: the playfield, the live entities, and the
/// per-tick buffers of deferred structural changes (spawns and destruction
/// records), committed in one pass at the end of each tick so that no stage
/// observes a half-destroyed entity.
pub struct World {
    pub bounds: WorldBounds,
    pub asteroid_variants: usize,
    pub next_id: u64,
    pub ship: Option<ShipEntity>,
    pub asteroids: Vec<AsteroidEntity>,
    pub projectiles: Vec<ProjectileEntity>,
    pub pending_asteroids: Vec<AsteroidEntity>,
    pub pending_projectiles: Vec<ProjectileEntity>,
    pub destruction_events: Vec<AsteroidDestructionEvent>,
    pub rng: rand::rngs::StdRng,
}

impl World {
    /// Every entity, pending spawn and destruction record is internally
    /// well-formed.
    pub open spec fn entities_wf(self) -> bool {
        &&& (self.ship matches Some(s) ==> s.wf())
        &&& forall|i: int|
            0 <= i < self.asteroids@.len() ==> (#[trigger] self.asteroids@[i]).wf()
        &&& forall|i: int|
            0 <= i < self.projectiles@.len() ==> (#[trigger] self.projectiles@[i]).wf()
        &&& forall|i: int|
            0 <= i < self.pending_asteroids@.len() ==> (
            #[trigger] self.pending_asteroids@[i]).wf()
        &&& forall|i: int|
            0 <= i < self.pending_projectiles@.len() ==> (
            #[trigger] self.pending_projectiles@[i]).wf()
        &&& forall|i: int|
            0 <= i < self.destruction_events@.len() ==> (
            #[trigger] self.destruction_events@[i]).wf()
    }

    /// Every live entity lies inside the playfield.
    pub open spec fn live_in_bounds(self) -> bool {
        &&& (self.ship matches Some(s) ==> self.bounds.contains(s.transform.pos))
        &&& forall|i: int|
            0 <= i < self.asteroids@.len() ==> self.bounds.contains(
                (#[trigger] self.asteroids@[i]).transform.pos,
            )
        &&& forall|i: int|
            0 <= i < self.projectiles@.len() ==> self.bounds.contains(
                (#[trigger] self.projectiles@[i]).transform.pos,
            )
    }

    /// Every pending spawn and recorded destruction point lies inside the
    /// playfield.
    pub open spec fn pending_in_bounds(self) -> bool {
        &&& forall|i: int|
            0 <= i < self.pending_asteroids@.len() ==> self.bounds.contains(
                (#[trigger] self.pending_asteroids@[i]).transform.pos,
            )
        &&& forall|i: int|
            0 <= i < self.pending_projectiles@.len() ==> self.bounds.contains(
                (#[trigger] self.pending_projectiles@[i]).transform.pos,
            )
        &&& forall|i: int|
            0 <= i < self.destruction_events@.len() ==> self.bounds.contains(
                (#[trigger] self.destruction_events@[i]).destruction_point,
            )
    }

    /// Every live and pending entity, and every recorded destruction point,
    /// lies inside the playfield.
    pub open spec fn in_bounds(self) -> bool {
        self.live_in_bounds() && self.pending_in_bounds()
    }

    pub open spec fn wf(self) -> bool {
        &&& self.bounds.wf()
        &&& 1 <= self.asteroid_variants <= 1_000_000
        &&& self.entities_wf()
        &&& self.in_bounds()
    }

    /// No structural change is pending: the state between ticks.
    pub open spec fn quiescent(self) -> bool {
        &&& self.pending_asteroids@.len() == 0
        &&& self.pending_projectiles@.len() == 0
        &&& self.destruction_events@.len() == 0
    }

    /// An empty world over the given playfield, with a seeded random source
    /// for split trajectories, so a run is reproducible.
    pub fn new(bounds: WorldBounds, asteroid_variants: usize, seed: u64) -> (w: World)
        requires
            bounds.wf(),
            1 <= asteroid_variants <= 1_000_000,
        ensures
            w.bounds == bounds,
            w.asteroid_variants == asteroid_variants,
            w.next_id == 0,
            w.ship is None,
            w.asteroids@.len() == 0,
            w.projectiles@.len() == 0,
            w.wf(),
            w.quiescent(),
    {
        World {
            bounds,
            asteroid_variants,
            next_id: 0,
            ship: None,
            asteroids: Vec::new(),
            projectiles: Vec::new(),
            pending_asteroids: Vec::new(),
            pending_projectiles: Vec::new(),
            destruction_events: Vec::new(),
            rng: rng_from_seed(seed),
        }
    }

    /// Spawn the player's ship at the origin in the reference configuration,
    /// with its shooter ready to fire.
    pub fn spawn_player_ship(&mut self)
        requires
            old(self).wf(),
            old(self).ship is None,
            old(self).next_id < u64::MAX,
        ensures
            final(self).ship matches Some(s) && {
                &&& s.id == old(self).next_id
                &&& s.transform == (Transform {
                    pos: Vec2 { x: 0i64, y: 0i64 },
                    rot: 0i64,
                    scale: SHIP_SCALE,
                })
                &&& s.ship == (Ship {
                    friction: SHIP_FRICTION,
                    acceleration: SHIP_ACCELERATION,
                    speed: SHIP_SPEED,
                    rotation_speed: SHIP_ROTATION_SPEED,
                    moving: false,
                    velocity: Vec2 { x: 0i64, y: 0i64 },
                })
                &&& s.collider.bounds == (Vec2 { x: SHIP_COLLIDER, y: SHIP_COLLIDER })
                &&& s.shooter.projectile_speed == SHIP_PROJECTILE_SPEED
                &&& s.shooter.projectile_range == SHIP_PROJECTILE_RANGE
                &&& s.shooter.attack_speed.period == SHIP_ATTACK_PERIOD
                &&& s.shooter.attack_speed.remaining == 0
                &&& !s.dead
            },
            final(self).next_id == old(self).next_id + 1,
            final(self).bounds == old(self).bounds,
            final(self).asteroid_variants == old(self).asteroid_variants,
            final(self).asteroids@ == old(self).asteroids@,
            final(self).projectiles@ == old(self).projectiles@,
            final(self).pending_asteroids@ == old(self).pending_asteroids@,
            final(self).pending_projectiles@ == old(self).pending_projectiles@,
            final(self).destruction_events@ == old(self).destruction_events@,
            final(self).wf(),
    {
        let ship = Ship::new(SHIP_FRICTION, SHIP_ACCELERATION, SHIP_SPEED, SHIP_ROTATION_SPEED);
        let entity = ShipEntity {
            id: self.next_id,
            transform: Transform { pos: Vec2 { x: 0, y: 0 }, rot: 0, scale: SHIP_SCALE },
            ship,
            collider: Collider { bounds: Vec2 { x: SHIP_COLLIDER, y: SHIP_COLLIDER } },
            shooter: ProjectileShooter::new(
                SHIP_PROJECTILE_SPEED,
                SHIP_PROJECTILE_RANGE,
                SHIP_ATTACK_PERIOD,
            ),
            player: Player,
            wrap: WrapAround,
            dead: false,
        };
        self.next_id = self.next_id + 1;
        self.ship = Some(entity);
    }
}

/// How many of the projectiles that are still live overlap the box at `pos`
/// with half-extents `col`: the number of collision events this box takes
/// part in this tick.
pub open spec fn overlap_count(projs: Seq<ProjectileEntity>, pos: Vec2, col: Collider) -> int
    decreases projs.len(),
{
    if projs.len() == 0 {
        0
    } else {
        overlap_count(projs.drop_last(), pos, col) + if !projs.last().dead && aabb_overlap_spec(
            projs.last().transform.pos,
            projs.last().collider,
            pos,
            col,
        ) {
            1int
        } else {
            0int
        }
    }
}

pub proof fn lemma_overlap_count_bounds(projs: Seq<ProjectileEntity>, pos: Vec2, col: Collider)
    ensures
        0 <= overlap_count(projs, pos, col) <= projs.len(),
    decreases projs.len(),
{
    if projs.len() > 0 {
        lemma_overlap_count_bounds(projs.drop_last(), pos, col);
    }
}

/// The destruction records one tick's projectile collisions produce: one per
/// asteroid whose hits the tick's events take from positive to zero, in
/// asteroid order.
pub open spec fn destruction_seq(
    asts: Seq<AsteroidEntity>,
    projs: Seq<ProjectileEntity>,
) -> Seq<AsteroidDestructionEvent>
    decreases asts.len(),
{
    if asts.len() == 0 {
        Seq::empty()
    } else {
        let rest = destruction_seq(asts.drop_last(), projs);
        let a = asts.last();
        if a.asteroid.hits > 0 && overlap_count(projs, a.transform.pos, a.collider)
            >= a.asteroid.hits {
            rest.push(
                AsteroidDestructionEvent {
                    entity: a.id,
                    asteroid_tier: a.asteroid.tier,
                    destruction_point: a.transform.pos,
                },
            )
        } else {
            rest
        }
    }
}

pub proof fn lemma_destruction_seq_len(asts: Seq<AsteroidEntity>, projs: Seq<ProjectileEntity>)
    ensures
        destruction_seq(asts, projs).len() <= asts.len(),
    decreases asts.len(),
{
    if asts.len() > 0 {
        lemma_destruction_seq_len(asts.drop_last(), projs);
    }
}

/// Destruction records inherit well-formedness and position from the
/// asteroids they record.
pub proof fn lemma_destruction_seq_wf(
    asts: Seq<AsteroidEntity>,
    projs: Seq<ProjectileEntity>,
    b: WorldBounds,
)
    requires
        b.wf(),
        forall|i: int|
            0 <= i < asts.len() ==> (#[trigger] asts[i]).wf() && b.contains(
                asts[i].transform.pos,
            ),
    ensures
        forall|j: int|
            0 <= j < destruction_seq(asts, projs).len() ==> (#[trigger] destruction_seq(
                asts,
                projs,
            )[j]).wf() && b.contains(destruction_seq(asts, projs)[j].destruction_point),
    decreases asts.len(),
{
    if asts.len() > 0 {
        lemma_destruction_seq_wf(asts.drop_last(), projs, b);
        let a = asts.last();
        assert(a == asts[asts.len() - 1]);
        assert(a.wf() && b.contains(a.transform.pos));
        lemma_contained_mag(a.transform.pos, b);
        let s = destruction_seq(asts, projs);
        let rest = destruction_seq(asts.drop_last(), projs);
        if a.asteroid.hits > 0 && overlap_count(projs, a.transform.pos, a.collider)
            >= a.asteroid.hits {
            let ev = AsteroidDestructionEvent {
                entity: a.id,
                asteroid_tier: a.asteroid.tier,
                destruction_point: a.transform.pos,
            };
            assert(s == rest.push(ev));
            assert(ev.wf() && b.contains(ev.destruction_point));
            assert forall|j: int| 0 <= j < s.len() implies (#[trigger] s[j]).wf() && b.contains(
                s[j].destruction_point,
            ) by {
                if j < rest.len() {
                    assert(s[j] == rest[j]);
                } else {
                    assert(s[j] == ev);
                }
            }
        } else {
            assert(s == rest);
        }
    }
}

/// Does the box at `pos` with half-extents `col` overlap any asteroid? The
/// typed pairwise scan: ship and projectile boxes are tested against the
/// asteroid subset only.
pub fn overlaps_any_asteroid(asteroids: &Vec<AsteroidEntity>, pos: Vec2, col: &Collider) -> (r:
    bool)
    requires
        forall|i: int|
            0 <= i < asteroids@.len() ==> (#[trigger] asteroids@[i]).wf()
                && asteroids@[i].transform.pos.mag_within(MAX_MAG as int),
        pos.mag_within(MAX_MAG as int),
        col.wf(),
    ensures
        r == exists|i: int|
            0 <= i < asteroids@.len() && aabb_overlap_spec(
                pos,
                *col,
                (#[trigger] asteroids@[i]).transform.pos,
                asteroids@[i].collider,
            ),
{
    let n: usize = asteroids.len();
    let mut i: usize = 0;
    let mut hit: bool = false;
    while i < n
        invariant
            i <= n,
            n == asteroids@.len(),
            forall|j: int|
                0 <= j < asteroids@.len() ==> (#[trigger] asteroids@[j]).wf()
                    && asteroids@[j].transform.pos.mag_within(MAX_MAG as int),
            pos.mag_within(MAX_MAG as int),
            col.wf(),
            hit == exists|j: int|
                0 <= j < i && aabb_overlap_spec(
                    pos,
                    *col,
                    (#[trigger] asteroids@[j]).transform.pos,
                    asteroids@[j].collider,
                ),
        decreases n - i,
    {
        let a = asteroids[i];
        if aabb_overlap(pos, col, a.transform.pos, &a.collider) {
            hit = true;
            proof {
                assert(aabb_overlap_spec(pos, *col, asteroids@[i as int].transform.pos,
                    asteroids@[i as int].collider));
            }
        }
        i = i + 1;
    }
    hit
}

/// Count the live projectiles whose boxes overlap the box at `pos`.
pub fn count_overlapping_projectiles(
    projectiles: &Vec<ProjectileEntity>,
    pos: Vec2,
    col: &Collider,
) -> (n: usize)
    requires
        forall|i: int|
            0 <= i < projectiles@.len() ==> (#[trigger] projectiles@[i]).wf()
                && projectiles@[i].transform.pos.mag_within(MAX_MAG as int),
        pos.mag_within(MAX_MAG as int),
        col.wf(),
    ensures
        n == overlap_count(projectiles@, pos, *col),
{
    let m: usize = projectiles.len();
    let mut k: usize = 0;
    let mut n: usize = 0;
    while k < m
        invariant
            k <= m,
            m == projectiles@.len(),
            forall|j: int|
                0 <= j < projectiles@.len() ==> (#[trigger] projectiles@[j]).wf()
                    && projectiles@[j].transform.pos.mag_within(MAX_MAG as int),
            pos.mag_within(MAX_MAG as int),
            col.wf(),
            n == overlap_count(projectiles@.take(k as int), pos, *col),
            n <= k,
        decreases m - k,
    {
        let p = projectiles[k];
        proof {
            assert(projectiles@.take(k as int + 1).drop_last() =~= projectiles@.take(k as int));
            assert(projectiles@.take(k as int + 1).last() == projectiles@[k as int]);
        }
        if !p.dead && aabb_overlap(p.transform.pos, &p.collider, pos, col) {
            n = n + 1;
        }
        k = k + 1;
    }
    proof {
        assert(projectiles@.take(m as int) =~= projectiles@);
    }
    n
}

/// Relation between an asteroid entity before and after one tick of
/// kinematics: the body and collider are untouched, the position drifts by
/// the fixed velocity, and the sprite spins at the stored rate.
pub open spec fn asteroid_stepped(a0: AsteroidEntity, a1: AsteroidEntity, dt: int) -> bool {
    &&& a1.id == a0.id
    &&& a1.asteroid == a0.asteroid
    &&& a1.collider == a0.collider
    &&& a1.sprite_index == a0.sprite_index
    &&& a1.transform.pos.x == a0.transform.pos.x + tdiv1000(a0.asteroid.velocity.x * dt)
    &&& a1.transform.pos.y == a0.transform.pos.y + tdiv1000(a0.asteroid.velocity.y * dt)
    &&& a1.transform.rot == norm_angle_spec(
        a0.transform.rot + tdiv1000(a0.asteroid.rotation_speed * dt),
    )
    &&& a1.transform.scale == a0.transform.scale
}

/// Relation between a projectile entity before and after one tick: it moves
/// along its direction, the distance is charged against the range budget,
/// and it is marked dead exactly when the budget runs out.
pub open spec fn projectile_stepped(p0: ProjectileEntity, p1: ProjectileEntity, dt: int) -> bool {
    &&& p1.id == p0.id
    &&& p1.collider == p0.collider
    &&& p1.projectile.direction == p0.projectile.direction
    &&& p1.projectile.speed == p0.projectile.speed
    &&& p1.projectile.range == p0.projectile.range - travel_spec(p0.projectile.speed as int, dt)
    &&& p1.dead == (p1.projectile.range <= 0)
    &&& p1.transform.pos.x == p0.transform.pos.x + tdiv1000(
        p0.projectile.direction.x * travel_spec(p0.projectile.speed as int, dt),
    )
    &&& p1.transform.pos.y == p0.transform.pos.y + tdiv1000(
        p0.projectile.direction.y * travel_spec(p0.projectile.speed as int, dt),
    )
    &&& p1.transform.rot == p0.transform.rot
    &&& p1.transform.scale == p0.transform.scale
}

/// Relation between the ship entity before and after one tick of kinematics:
/// the velocity relaxes, and the position advances along the heading by the
/// new velocity, component by component.
pub open spec fn ship_stepped(s0: ShipEntity, s1: ShipEntity, heading: Vec2, dt: int) -> bool {
    &&& s1.id == s0.id
    &&& s1.collider == s0.collider
    &&& s1.shooter == s0.shooter
    &&& s1.dead == s0.dead
    &&& s1.ship.velocity == ship_velocity_after(s0.ship, dt)
    &&& s1.ship.friction == s0.ship.friction
    &&& s1.ship.acceleration == s0.ship.acceleration
    &&& s1.ship.speed == s0.ship.speed
    &&& s1.ship.rotation_speed == s0.ship.rotation_speed
    &&& s1.ship.moving == s0.ship.moving
    &&& s1.transform.pos.x == s0.transform.pos.x + tdiv1000(
        heading.x * tdiv1000(s1.ship.velocity.x * dt),
    )
    &&& s1.transform.pos.y == s0.transform.pos.y + tdiv1000(
        heading.y * tdiv1000(s1.ship.velocity.y * dt),
    )
    &&& s1.transform.rot == s0.transform.rot
    &&& s1.transform.scale == s0.transform.scale
}

/// An asteroid at the end of the tick's kinematics and wrap phases:
/// drifted by its fixed velocity, spun, and teleported back onto the
/// playfield.
pub open spec fn asteroid_after_motion(a0: AsteroidEntity, b: WorldBounds, dt: int) -> AsteroidEntity {
    AsteroidEntity {
        id: a0.id,
        transform: Transform {
            pos: wrap_position_spec(
                Vec2 {
                    x: (a0.transform.pos.x + tdiv1000(a0.asteroid.velocity.x * dt)) as i64,
                    y: (a0.transform.pos.y + tdiv1000(a0.asteroid.velocity.y * dt)) as i64,
                },
                b,
            ),
            rot: norm_angle_spec(a0.transform.rot + tdiv1000(a0.asteroid.rotation_speed * dt))
                as i64,
            scale: a0.transform.scale,
        },
        asteroid: a0.asteroid,
        collider: a0.collider,
        wrap: a0.wrap,
        sprite_index: a0.sprite_index,
    }
}

/// A live projectile at the end of the tick's kinematics and wrap phases:
/// moved along its direction, its travel charged against the range budget,
/// marked dead exactly if the budget ran out, and wrapped.
pub open spec fn projectile_after_motion(
    p0: ProjectileEntity,
    b: WorldBounds,
    dt: int,
) -> ProjectileEntity {
    let travel = travel_spec(p0.projectile.speed as int, dt);
    ProjectileEntity {
        id: p0.id,
        transform: Transform {
            pos: wrap_position_spec(
                Vec2 {
                    x: (p0.transform.pos.x + tdiv1000(p0.projectile.direction.x * travel)) as i64,
                    y: (p0.transform.pos.y + tdiv1000(p0.projectile.direction.y * travel)) as i64,
                },
                b,
            ),
            rot: p0.transform.rot,
            scale: p0.transform.scale,
        },
        projectile: Projectile {
            direction: p0.projectile.direction,
            speed: p0.projectile.speed,
            range: (p0.projectile.range - travel) as i64,
        },
        collider: p0.collider,
        wrap: p0.wrap,
        dead: p0.projectile.range - travel <= 0,
    }
}

/// All asteroids after the tick's motion phases.
pub open spec fn moved_asteroids(w: World, dt: int) -> Seq<AsteroidEntity> {
    Seq::new(w.asteroids@.len(), |i: int| asteroid_after_motion(w.asteroids@[i], w.bounds, dt))
}

/// All projectiles after the tick's motion phases.
pub open spec fn moved_projectiles(w: World, dt: int) -> Seq<ProjectileEntity> {
    Seq::new(
        w.projectiles@.len(),
        |i: int| projectile_after_motion(w.projectiles@[i], w.bounds, dt),
    )
}

/// An asteroid after resolution: it absorbs one hit per overlapping live
/// projectile, clamped at zero.
pub open spec fn damaged_asteroid(a: AsteroidEntity, projs: Seq<ProjectileEntity>) -> AsteroidEntity {
    AsteroidEntity {
        id: a.id,
        transform: a.transform,
        asteroid: Asteroid {
            rotation_speed: a.asteroid.rotation_speed,
            velocity: a.asteroid.velocity,
            tier: a.asteroid.tier,
            hits: damaged_hits_spec(
                a.asteroid.hits as int,
                overlap_count(projs, a.transform.pos, a.collider),
            ) as u16,
        },
        collider: a.collider,
        wrap: a.wrap,
        sprite_index: a.sprite_index,
    }
}

/// All asteroids at the end of the tick's resolution phase.
pub open spec fn resolved_asteroids(w: World, dt: int) -> Seq<AsteroidEntity> {
    Seq::new(
        w.asteroids@.len(),
        |i: int| damaged_asteroid(moved_asteroids(w, dt)[i], moved_projectiles(w, dt)),
    )
}

/// A projectile after resolution: spent exactly if it overlaps any asteroid.
pub open spec fn spent_projectile(p: ProjectileEntity, asts: Seq<AsteroidEntity>) -> ProjectileEntity {
    ProjectileEntity {
        id: p.id,
        transform: p.transform,
        projectile: p.projectile,
        collider: p.collider,
        wrap: p.wrap,
        dead: p.dead || exists|i: int|
            0 <= i < asts.len() && aabb_overlap_spec(
                p.transform.pos,
                p.collider,
                (#[trigger] asts[i]).transform.pos,
                asts[i].collider,
            ),
    }
}

/// All projectiles at the end of the tick's resolution phase.
pub open spec fn resolved_projectiles(w: World, dt: int) -> Seq<ProjectileEntity> {
    Seq::new(
        w.projectiles@.len(),
        |i: int| spent_projectile(moved_projectiles(w, dt)[i], moved_asteroids(w, dt)),
    )
}

/// The destruction records one tick produces.
pub open spec fn tick_destructions(w: World, dt: int) -> Seq<AsteroidDestructionEvent> {
    destruction_seq(moved_asteroids(w, dt), moved_projectiles(w, dt))
}

/// Whether this tick's fire request is honored: the fire key is held, a
/// ship is present, and its cooldown has elapsed once this tick's
/// count-down is applied.
pub open spec fn tick_fired(w: World, input: ShipInput, dt: int) -> bool {
    match w.ship {
        Some(s0) => input.fire && sat_sub(s0.shooter.attack_speed.remaining as int, dt) == 0,
        None => false,
    }
}

/// The fire request the player's input raises.
pub open spec fn tick_fire_event(s0: ShipEntity, input: ShipInput) -> ShootProjectileEvent {
    ShootProjectileEvent {
        spawn_position: s0.transform.pos,
        direction: input.heading,
        shooter: s0.id,
    }
}

/// Whether the ship, at its post-motion position, overlaps any asteroid:
/// the fatal condition of the tick.
pub open spec fn tick_ship_hit(s5: ShipEntity, asts: Seq<AsteroidEntity>) -> bool {
    exists|j: int|
        0 <= j < asts.len() && aabb_overlap_spec(
            s5.transform.pos,
            s5.collider,
            (#[trigger] asts[j]).transform.pos,
            asts[j].collider,
        )
}

/// The ship at the end of the tick's input, cooldown, fire, kinematics and
/// wrap phases: turned by the held keys, its thrust flag set, its cooldown
/// counted down (and restarted if this tick fired), its velocity relaxed,
/// and its position advanced along the heading and wrapped.
pub open spec fn ship_after_phases(
    s0: ShipEntity,
    input: ShipInput,
    fired: bool,
    b: WorldBounds,
    dt: int,
) -> ShipEntity {
    let ship1 = Ship {
        friction: s0.ship.friction,
        acceleration: s0.ship.acceleration,
        speed: s0.ship.speed,
        rotation_speed: s0.ship.rotation_speed,
        moving: input.forward,
        velocity: s0.ship.velocity,
    };
    let vel = ship_velocity_after(ship1, dt);
    let rem = if fired {
        s0.shooter.attack_speed.period as int
    } else {
        sat_sub(s0.shooter.attack_speed.remaining as int, dt)
    };
    ShipEntity {
        id: s0.id,
        transform: Transform {
            pos: wrap_position_spec(
                Vec2 {
                    x: (s0.transform.pos.x + tdiv1000(input.heading.x * tdiv1000(vel.x * dt)))
                        as i64,
                    y: (s0.transform.pos.y + tdiv1000(input.heading.y * tdiv1000(vel.y * dt)))
                        as i64,
                },
                b,
            ),
            rot: rot_after_input_spec(s0.transform.rot as int, s0.ship.rotation_speed as int,
                input.rotate_left, input.rotate_right, dt) as i64,
            scale: s0.transform.scale,
        },
        ship: Ship { velocity: vel, ..ship1 },
        collider: s0.collider,
        shooter: ProjectileShooter {
            projectile_speed: s0.shooter.projectile_speed,
            projectile_range: s0.shooter.projectile_range,
            attack_speed: CooldownTimer {
                period: s0.shooter.attack_speed.period,
                remaining: rem as u32,
            },
        },
        player: s0.player,
        wrap: s0.wrap,
        dead: s0.dead,
    }
}

impl World {
    /// Seed the playfield with the three reference asteroids, placed
    /// directly: seeding happens at startup, outside any tick.
    pub fn populate_with_asteroids(&mut self)
        requires
            old(self).wf(),
            old(self).next_id + 3 <= u64::MAX,
            old(self).bounds.x >= 320_000,
            old(self).bounds.y >= 30_000,
        ensures
            final(self).asteroids@ == old(self).asteroids@.push(
                spawned_asteroid_spec(old(self).next_id, 4u16, 7_000i64, 750_000i64,
                    Vec2 { x: -450i64, y: 350i64 }, Vec2 { x: 300_000i64, y: 30_000i64 }, 0usize),
            ).push(
                spawned_asteroid_spec((old(self).next_id + 1) as u64, 6u16, 4_000i64, 450_000i64,
                    Vec2 { x: 450i64, y: -350i64 }, Vec2 { x: -320_000i64, y: 30_000i64 }, 1usize),
            ).push(
                spawned_asteroid_spec((old(self).next_id + 2) as u64, 2u16, 15_000i64,
                    1_000_000i64, Vec2 { x: 150i64, y: 240i64 },
                    Vec2 { x: 200_000i64, y: -30_000i64 }, 2usize),
            ),
            final(self).next_id == old(self).next_id + 3,
            final(self).bounds == old(self).bounds,
            final(self).asteroid_variants == old(self).asteroid_variants,
            final(self).ship == old(self).ship,
            final(self).projectiles@ == old(self).projectiles@,
            final(self).pending_asteroids@ == old(self).pending_asteroids@,
            final(self).pending_projectiles@ == old(self).pending_projectiles@,
            final(self).destruction_events@ == old(self).destruction_events@,
            final(self).wf(),
    {
        let a1 = build_asteroid(self.next_id, 4, 7_000, 750_000, Vec2 { x: -450, y: 350 },
            Vec2 { x: 300_000, y: 30_000 }, 0);
        self.asteroids.push(a1);
        self.next_id = self.next_id + 1;
        let a2 = build_asteroid(self.next_id, 6, 4_000, 450_000, Vec2 { x: 450, y: -350 },
            Vec2 { x: -320_000, y: 30_000 }, 1);
        self.asteroids.push(a2);
        self.next_id = self.next_id + 1;
        let a3 = build_asteroid(self.next_id, 2, 15_000, 1_000_000, Vec2 { x: 150, y: 240 },
            Vec2 { x: 200_000, y: -30_000 }, 2);
        self.asteroids.push(a3);
        self.next_id = self.next_id + 1;
    }

    /// Apply the player's sampled controls: turn the ship, set the thrust
    /// flag, and raise a fire request when the fire key is held. With no
    /// ship present the input is skipped, not an error.
    pub fn player_input(&mut self, input: &ShipInput, dt: u32) -> (fire_request: Option<
        ShootProjectileEvent,
    >)
        requires
            old(self).wf(),
            input.wf(),
            dt <= 1000,
        ensures
            old(self).ship is None ==> *final(self) == *old(self) && fire_request is None,
            old(self).ship matches Some(s) ==> final(self).ship matches Some(s2) && {
                &&& s2.id == s.id
                &&& s2.collider == s.collider
                &&& s2.shooter == s.shooter
                &&& s2.dead == s.dead
                &&& s2.transform.pos == s.transform.pos
                &&& s2.transform.scale == s.transform.scale
                &&& s2.transform.rot == rot_after_input_spec(s.transform.rot as int,
                    s.ship.rotation_speed as int, input.rotate_left, input.rotate_right,
                    dt as int)
                &&& s2.ship.moving == input.forward
                &&& s2.ship.friction == s.ship.friction
                &&& s2.ship.acceleration == s.ship.acceleration
                &&& s2.ship.speed == s.ship.speed
                &&& s2.ship.rotation_speed == s.ship.rotation_speed
                &&& s2.ship.velocity == s.ship.velocity
                &&& fire_request == if input.fire {
                    Some(ShootProjectileEvent {
                        spawn_position: s.transform.pos,
                        direction: input.heading,
                        shooter: s.id,
                    })
                } else {
                    None::<ShootProjectileEvent>
                }
            },
            final(self).bounds == old(self).bounds,
            final(self).asteroid_variants == old(self).asteroid_variants,
            final(self).next_id == old(self).next_id,
            final(self).asteroids@ == old(self).asteroids@,
            final(self).projectiles@ == old(self).projectiles@,
            final(self).pending_asteroids@ == old(self).pending_asteroids@,
            final(self).pending_projectiles@ == old(self).pending_projectiles@,
            final(self).destruction_events@ == old(self).destruction_events@,
            final(self).wf(),
    {
        match self.ship {
            Some(s) => {
                let mut s2 = s;
                apply_rotation_input(&mut s2.transform, s2.ship.rotation_speed,
                    input.rotate_left, input.rotate_right, dt);
                s2.ship.moving = input.forward;
                self.ship = Some(s2);
                if input.fire {
                    Some(ShootProjectileEvent {
                        spawn_position: s2.transform.pos,
                        direction: input.heading,
                        shooter: s2.id,
                    })
                } else {
                    None
                }
            },
            None => None,
        }
    }

    /// Count the ship's shooting cooldown down by one tick. It counts down
    /// every tick, whether or not a shot is requested.
    pub fn handle_attack_speed(&mut self, dt: u32)
        requires
            old(self).wf(),
        ensures
            old(self).ship is None ==> *final(self) == *old(self),
            old(self).ship matches Some(s) ==> final(self).ship matches Some(s2) && {
                &&& s2.shooter.attack_speed.period == s.shooter.attack_speed.period
                &&& s2.shooter.attack_speed.remaining == sat_sub(
                    s.shooter.attack_speed.remaining as int, dt as int)
                &&& s2.shooter.projectile_speed == s.shooter.projectile_speed
                &&& s2.shooter.projectile_range == s.shooter.projectile_range
                &&& s2.id == s.id
                &&& s2.transform == s.transform
                &&& s2.ship == s.ship
                &&& s2.collider == s.collider
                &&& s2.dead == s.dead
            },
            final(self).bounds == old(self).bounds,
            final(self).asteroid_variants == old(self).asteroid_variants,
            final(self).next_id == old(self).next_id,
            final(self).asteroids@ == old(self).asteroids@,
            final(self).projectiles@ == old(self).projectiles@,
            final(self).pending_asteroids@ == old(self).pending_asteroids@,
            final(self).pending_projectiles@ == old(self).pending_projectiles@,
            final(self).destruction_events@ == old(self).destruction_events@,
            final(self).wf(),
    {
        match self.ship {
            Some(s) => {
                let mut s2 = s;
                s2.shooter.attack_speed.tick(dt);
                self.ship = Some(s2);
            },
            None => {},
        }
    }

    /// Honor or drop one fire request: a request whose shooter is gone or
    /// does not match is a stale reference and a no-op; one on cooldown is
    /// silently dropped; otherwise a projectile spawn is queued and the
    /// cooldown starts over.
    pub fn shoot_projectile_event(&mut self, ev: &ShootProjectileEvent)
        requires
            old(self).wf(),
            old(self).next_id < u64::MAX,
            ev.direction.mag_within(2000),
            old(self).bounds.contains(ev.spawn_position),
        ensures
            (old(self).ship is None) ==> *final(self) == *old(self),
            old(self).ship matches Some(s) ==> {
                if ev.shooter != s.id || s.shooter.attack_speed.remaining != 0 {
                    *final(self) == *old(self)
                } else {
                    &&& final(self).ship matches Some(s2) && {
                        &&& s2.shooter.attack_speed.remaining == s.shooter.attack_speed.period
                        &&& s2.shooter.attack_speed.period == s.shooter.attack_speed.period
                        &&& s2.shooter.projectile_speed == s.shooter.projectile_speed
                        &&& s2.shooter.projectile_range == s.shooter.projectile_range
                        &&& s2.id == s.id
                        &&& s2.transform == s.transform
                        &&& s2.ship == s.ship
                        &&& s2.collider == s.collider
                        &&& s2.dead == s.dead
                    }
                    &&& final(self).pending_projectiles@ == old(self).pending_projectiles@.push(
                        spawned_projectile_spec(old(self).next_id, *ev, s.shooter),
                    )
                    &&& final(self).next_id == old(self).next_id + 1
                }
            },
            final(self).bounds == old(self).bounds,
            final(self).asteroid_variants == old(self).asteroid_variants,
            final(self).asteroids@ == old(self).asteroids@,
            final(self).projectiles@ == old(self).projectiles@,
            final(self).pending_asteroids@ == old(self).pending_asteroids@,
            final(self).destruction_events@ == old(self).destruction_events@,
            final(self).wf(),
    {
        match self.ship {
            Some(s) => {
                if ev.shooter == s.id {
                    let mut s2 = s;
                    let fired = s2.shooter.fire_if_ready();
                    if fired {
                        let p = ProjectileEntity {
                            id: self.next_id,
                            transform: Transform {
                                pos: ev.spawn_position,
                                rot: 0,
                                scale: PROJECTILE_SCALE,
                            },
                            projectile: Projectile {
                                direction: ev.direction,
                                speed: s2.shooter.projectile_speed,
                                range: s2.shooter.projectile_range,
                            },
                            collider: Collider {
                                bounds: Vec2 { x: PROJECTILE_COLLIDER, y: PROJECTILE_COLLIDER },
                            },
                            wrap: WrapAround,
                            dead: false,
                        };
                        self.pending_projectiles.push(p);
                        self.next_id = self.next_id + 1;
                        self.ship = Some(s2);
                    }
                }
            },
            None => {},
        }
    }

    /// Advance the ship's kinematics for one tick.
    pub fn ship_movement(&mut self, heading: Vec2, dt: u32)
        requires
            old(self).bounds.wf(),
            old(self).entities_wf(),
            old(self).ship matches Some(s) ==> old(self).bounds.contains(s.transform.pos),
            heading.mag_within(1000),
            dt <= 1000,
        ensures
            old(self).ship is None ==> *final(self) == *old(self),
            old(self).ship matches Some(s) ==> final(self).ship matches Some(s2)
                && ship_stepped(s, s2, heading, dt as int) && s2.wf()
                && s2.transform.pos.mag_within(2 * MAX_MAG as int),
            final(self).bounds == old(self).bounds,
            final(self).asteroid_variants == old(self).asteroid_variants,
            final(self).next_id == old(self).next_id,
            final(self).asteroids@ == old(self).asteroids@,
            final(self).projectiles@ == old(self).projectiles@,
            final(self).pending_asteroids@ == old(self).pending_asteroids@,
            final(self).pending_projectiles@ == old(self).pending_projectiles@,
            final(self).destruction_events@ == old(self).destruction_events@,
            final(self).entities_wf(),
    {
        match self.ship {
            Some(s) => {
                let mut s2 = s;
                proof {
                    lemma_contained_mag(s.transform.pos, self.bounds);
                }
                ship_movement(&mut s2.transform, &mut s2.ship, heading, dt);
                self.ship = Some(s2);
            },
            None => {},
        }
    }

    /// Advance every asteroid's kinematics for one tick.
    pub fn asteroid_movement(&mut self, dt: u32)
        requires
            old(self).bounds.wf(),
            old(self).entities_wf(),
            forall|j: int|
                0 <= j < old(self).asteroids@.len() ==> old(self).bounds.contains(
                    (#[trigger] old(self).asteroids@[j]).transform.pos,
                ),
            dt <= 1000,
        ensures
            final(self).entities_wf(),
            final(self).asteroids@.len() == old(self).asteroids@.len(),
            forall|j: int|
                0 <= j < old(self).asteroids@.len() ==> asteroid_stepped(
                    old(self).asteroids@[j],
                    #[trigger] final(self).asteroids@[j],
                    dt as int,
                ) && final(self).asteroids@[j].wf()
                    && final(self).asteroids@[j].transform.pos.mag_within(2 * MAX_MAG as int),
            final(self).bounds == old(self).bounds,
            final(self).asteroid_variants == old(self).asteroid_variants,
            final(self).next_id == old(self).next_id,
            final(self).ship == old(self).ship,
            final(self).projectiles@ == old(self).projectiles@,
            final(self).pending_asteroids@ == old(self).pending_asteroids@,
            final(self).pending_projectiles@ == old(self).pending_projectiles@,
            final(self).destruction_events@ == old(self).destruction_events@,
    {
        let n: usize = self.asteroids.len();
        let mut i: usize = 0;
        while i < n
            invariant
                i <= n,
                n == self.asteroids@.len(),
                dt <= 1000,
                old(self).bounds.wf(),
                old(self).entities_wf(),
                forall|j: int|
                    0 <= j < old(self).asteroids@.len() ==> old(self).bounds.contains(
                        (#[trigger] old(self).asteroids@[j]).transform.pos,
                    ),
                self.bounds == old(self).bounds,
                self.asteroid_variants == old(self).asteroid_variants,
                self.next_id == old(self).next_id,
                self.ship == old(self).ship,
                self.projectiles@ == old(self).projectiles@,
                self.pending_asteroids@ == old(self).pending_asteroids@,
                self.pending_projectiles@ == old(self).pending_projectiles@,
                self.destruction_events@ == old(self).destruction_events@,
                n == old(self).asteroids@.len(),
                forall|j: int| i <= j < n ==> self.asteroids@[j] == old(self).asteroids@[j],
                forall|j: int|
                    0 <= j < i ==> asteroid_stepped(
                        old(self).asteroids@[j],
                        #[trigger] self.asteroids@[j],
                        dt as int,
                    ) && self.asteroids@[j].wf() && self.asteroids@[j].transform.pos.mag_within(
                        2 * MAX_MAG as int,
                    ),
            decreases n - i,
        {
            let mut a = self.asteroids[i];
            proof {
                assert(a == old(self).asteroids@[i as int]);
                lemma_contained_mag(a.transform.pos, self.bounds);
            }
            asteroid_movement(&mut a.transform, &a.asteroid, dt);
            self.asteroids[i] = a;
            i = i + 1;
        }
    }

    /// Advance every projectile for one tick, marking the burnt-out ones.
    pub fn handle_projectiles(&mut self, dt: u32)
        requires
            old(self).bounds.wf(),
            old(self).entities_wf(),
            forall|j: int|
                0 <= j < old(self).projectiles@.len() ==> old(self).bounds.contains(
                    (#[trigger] old(self).projectiles@[j]).transform.pos,
                ),
            dt <= 1000,
            forall|j: int|
                0 <= j < old(self).projectiles@.len() ==> !(
                #[trigger] old(self).projectiles@[j]).dead,
        ensures
            final(self).entities_wf(),
            final(self).projectiles@.len() == old(self).projectiles@.len(),
            forall|j: int|
                0 <= j < old(self).projectiles@.len() ==> projectile_stepped(
                    old(self).projectiles@[j],
                    #[trigger] final(self).projectiles@[j],
                    dt as int,
                ) && final(self).projectiles@[j].wf()
                    && final(self).projectiles@[j].transform.pos.mag_within(3 * MAX_MAG as int),
            final(self).bounds == old(self).bounds,
            final(self).asteroid_variants == old(self).asteroid_variants,
            final(self).next_id == old(self).next_id,
            final(self).ship == old(self).ship,
            final(self).asteroids@ == old(self).asteroids@,
            final(self).pending_asteroids@ == old(self).pending_asteroids@,
            final(self).pending_projectiles@ == old(self).pending_projectiles@,
            final(self).destruction_events@ == old(self).destruction_events@,
    {
        let n: usize = self.projectiles.len();
        let mut i: usize = 0;
        while i < n
            invariant
                i <= n,
                n == self.projectiles@.len(),
                dt <= 1000,
                old(self).bounds.wf(),
                old(self).entities_wf(),
                forall|j: int|
                    0 <= j < old(self).projectiles@.len() ==> old(self).bounds.contains(
                        (#[trigger] old(self).projectiles@[j]).transform.pos,
                    ),
                forall|j: int|
                    0 <= j < old(self).projectiles@.len() ==> !(
                    #[trigger] old(self).projectiles@[j]).dead,
                self.bounds == old(self).bounds,
                self.asteroid_variants == old(self).asteroid_variants,
                self.next_id == old(self).next_id,
                self.ship == old(self).ship,
                self.asteroids@ == old(self).asteroids@,
                self.pending_asteroids@ == old(self).pending_asteroids@,
                self.pending_projectiles@ == old(self).pending_projectiles@,
                self.destruction_events@ == old(self).destruction_events@,
                n == old(self).projectiles@.len(),
                forall|j: int| i <= j < n ==> self.projectiles@[j] == old(self).projectiles@[j],
                forall|j: int|
                    0 <= j < i ==> projectile_stepped(
                        old(self).projectiles@[j],
                        #[trigger] self.projectiles@[j],
                        dt as int,
                    ) && self.projectiles@[j].wf() && self.projectiles@[j].transform.pos.mag_within(
                        3 * MAX_MAG as int,
                    ),
            decreases n - i,
        {
            let mut p = self.projectiles[i];
            proof {
                assert(p == old(self).projectiles@[i as int]);
                lemma_contained_mag(p.transform.pos, self.bounds);
            }
            let burnt_out = projectile_step(&mut p.transform, &mut p.projectile, dt);
            if burnt_out {
                p.dead = true;
            }
            self.projectiles[i] = p;
            i = i + 1;
        }
    }

    /// Teleport every wrap-eligible entity that has drifted to or past an
    /// edge of the playfield to the opposite edge.
    pub fn wrap_positions_around_world(&mut self)
        requires
            old(self).bounds.wf(),
            old(self).entities_wf(),
        ensures
            old(self).ship is None ==> final(self).ship is None,
            old(self).ship matches Some(s) ==> final(self).ship matches Some(s2) && {
                &&& s2.id == s.id
                &&& s2.ship == s.ship
                &&& s2.collider == s.collider
                &&& s2.shooter == s.shooter
                &&& s2.dead == s.dead
                &&& s2.transform.rot == s.transform.rot
                &&& s2.transform.scale == s.transform.scale
                &&& s2.transform.pos == wrap_position_spec(s.transform.pos, old(self).bounds)
            },
            final(self).asteroids@.len() == old(self).asteroids@.len(),
            forall|j: int|
                0 <= j < old(self).asteroids@.len() ==> {
                    let a0 = old(self).asteroids@[j];
                    let a1 = #[trigger] final(self).asteroids@[j];
                    &&& a1.id == a0.id
                    &&& a1.asteroid == a0.asteroid
                    &&& a1.collider == a0.collider
                    &&& a1.sprite_index == a0.sprite_index
                    &&& a1.transform.rot == a0.transform.rot
                    &&& a1.transform.scale == a0.transform.scale
                    &&& a1.transform.pos == wrap_position_spec(a0.transform.pos, old(self).bounds)
                },
            final(self).projectiles@.len() == old(self).projectiles@.len(),
            forall|j: int|
                0 <= j < old(self).projectiles@.len() ==> {
                    let p0 = old(self).projectiles@[j];
                    let p1 = #[trigger] final(self).projectiles@[j];
                    &&& p1.id == p0.id
                    &&& p1.projectile == p0.projectile
                    &&& p1.collider == p0.collider
                    &&& p1.dead == p0.dead
                    &&& p1.transform.rot == p0.transform.rot
                    &&& p1.transform.scale == p0.transform.scale
                    &&& p1.transform.pos == wrap_position_spec(p0.transform.pos, old(self).bounds)
                },
            final(self).bounds == old(self).bounds,
            final(self).asteroid_variants == old(self).asteroid_variants,
            final(self).next_id == old(self).next_id,
            final(self).pending_asteroids@ == old(self).pending_asteroids@,
            final(self).pending_projectiles@ == old(self).pending_projectiles@,
            final(self).destruction_events@ == old(self).destruction_events@,
            final(self).entities_wf(),
            final(self).live_in_bounds(),
    {
        match self.ship {
            Some(s) => {
                let mut s2 = s;
                s2.transform.pos = wrap_position(s2.transform.pos, &self.bounds);
                self.ship = Some(s2);
            },
            None => {},
        }
        let n: usize = self.asteroids.len();
        let mut i: usize = 0;
        while i < n
            invariant
                i <= n,
                n == self.asteroids@.len(),
                old(self).bounds.wf(),
                old(self).entities_wf(),
                self.bounds == old(self).bounds,
                self.asteroid_variants == old(self).asteroid_variants,
                self.next_id == old(self).next_id,
                self.projectiles@ == old(self).projectiles@,
                self.pending_asteroids@ == old(self).pending_asteroids@,
                self.pending_projectiles@ == old(self).pending_projectiles@,
                self.destruction_events@ == old(self).destruction_events@,
                n == old(self).asteroids@.len(),
                old(self).ship is None ==> self.ship is None,
                old(self).ship matches Some(s) ==> self.ship matches Some(s2) && {
                    &&& s2.id == s.id
                    &&& s2.ship == s.ship
                    &&& s2.collider == s.collider
                    &&& s2.shooter == s.shooter
                    &&& s2.dead == s.dead
                    &&& s2.transform.rot == s.transform.rot
                    &&& s2.transform.scale == s.transform.scale
                    &&& s2.transform.pos == wrap_position_spec(s.transform.pos, old(self).bounds)
                },
                forall|j: int| i <= j < n ==> self.asteroids@[j] == old(self).asteroids@[j],
                forall|j: int|
                    0 <= j < i ==> {
                        let a0 = old(self).asteroids@[j];
                        let a1 = #[trigger] self.asteroids@[j];
                        &&& a1.id == a0.id
                        &&& a1.asteroid == a0.asteroid
                        &&& a1.collider == a0.collider
                        &&& a1.sprite_index == a0.sprite_index
                        &&& a1.transform.rot == a0.transform.rot
                        &&& a1.transform.scale == a0.transform.scale
                        &&& a1.transform.pos == wrap_position_spec(a0.transform.pos,
                            old(self).bounds)
                    },
            decreases n - i,
        {
            let mut a = self.asteroids[i];
            a.transform.pos = wrap_position(a.transform.pos, &self.bounds);
            self.asteroids[i] = a;
            i = i + 1;
        }
        let m: usize = self.projectiles.len();
        let mut k: usize = 0;
        while k < m
            invariant
                k <= m,
                m == self.projectiles@.len(),
                old(self).bounds.wf(),
                old(self).entities_wf(),
                self.bounds == old(self).bounds,
                self.asteroid_variants == old(self).asteroid_variants,
                self.next_id == old(self).next_id,
                self.asteroids@.len() == old(self).asteroids@.len(),
                forall|j: int|
                    0 <= j < old(self).asteroids@.len() ==> {
                        let a0 = old(self).asteroids@[j];
                        let a1 = #[trigger] self.asteroids@[j];
                        &&& a1.id == a0.id
                        &&& a1.asteroid == a0.asteroid
                        &&& a1.collider == a0.collider
                        &&& a1.sprite_index == a0.sprite_index
                        &&& a1.transform.rot == a0.transform.rot
                        &&& a1.transform.scale == a0.transform.scale
                        &&& a1.transform.pos == wrap_position_spec(a0.transform.pos,
                            old(self).bounds)
                    },
                self.pending_asteroids@ == old(self).pending_asteroids@,
                self.pending_projectiles@ == old(self).pending_projectiles@,
                self.destruction_events@ == old(self).destruction_events@,
                m == old(self).projectiles@.len(),
                old(self).ship is None ==> self.ship is None,
                old(self).ship matches Some(s) ==> self.ship matches Some(s2) && {
                    &&& s2.id == s.id
                    &&& s2.ship == s.ship
                    &&& s2.collider == s.collider
                    &&& s2.shooter == s.shooter
                    &&& s2.dead == s.dead
                    &&& s2.transform.rot == s.transform.rot
                    &&& s2.transform.scale == s.transform.scale
                    &&& s2.transform.pos == wrap_position_spec(s.transform.pos, old(self).bounds)
                },
                forall|j: int| k <= j < m ==> self.projectiles@[j] == old(self).projectiles@[j],
                forall|j: int|
                    0 <= j < k ==> {
                        let p0 = old(self).projectiles@[j];
                        let p1 = #[trigger] self.projectiles@[j];
                        &&& p1.id == p0.id
                        &&& p1.projectile == p0.projectile
                        &&& p1.collider == p0.collider
                        &&& p1.dead == p0.dead
                        &&& p1.transform.rot == p0.transform.rot
                        &&& p1.transform.scale == p0.transform.scale
                        &&& p1.transform.pos == wrap_position_spec(p0.transform.pos,
                            old(self).bounds)
                    },
            decreases m - k,
        {
            let mut p = self.projectiles[k];
            p.transform.pos = wrap_position(p.transform.pos, &self.bounds);
            self.projectiles[k] = p;
            k = k + 1;
        }
    }

    /// Any overlap between the ship and an asteroid is fatal: the ship is
    /// marked for despawn, deferred to the end of the tick.
    pub fn ship_asteroid_collision(&mut self)
        requires
            old(self).wf(),
        ensures
            old(self).ship is None ==> *final(self) == *old(self),
            old(self).ship matches Some(s) ==> final(self).ship matches Some(s2) && {
                &&& s2.id == s.id
                &&& s2.transform == s.transform
                &&& s2.ship == s.ship
                &&& s2.collider == s.collider
                &&& s2.shooter == s.shooter
                &&& s2.dead == (s.dead || exists|j: int|
                    0 <= j < old(self).asteroids@.len() && aabb_overlap_spec(
                        s.transform.pos,
                        s.collider,
                        (#[trigger] old(self).asteroids@[j]).transform.pos,
                        old(self).asteroids@[j].collider,
                    ))
            },
            final(self).bounds == old(self).bounds,
            final(self).asteroid_variants == old(self).asteroid_variants,
            final(self).next_id == old(self).next_id,
            final(self).asteroids@ == old(self).asteroids@,
            final(self).projectiles@ == old(self).projectiles@,
            final(self).pending_asteroids@ == old(self).pending_asteroids@,
            final(self).pending_projectiles@ == old(self).pending_projectiles@,
            final(self).destruction_events@ == old(self).destruction_events@,
            final(self).wf(),
    {
        match self.ship {
            Some(s) => {
                proof {
                    lemma_contained_mag(s.transform.pos, self.bounds);
                    assert forall|i: int| 0 <= i < self.asteroids@.len() implies (
                    #[trigger] self.asteroids@[i]).wf()
                        && self.asteroids@[i].transform.pos.mag_within(MAX_MAG as int) by {
                        lemma_contained_mag(self.asteroids@[i].transform.pos, self.bounds);
                    }
                }
                let hit = overlaps_any_asteroid(&self.asteroids, s.transform.pos, &s.collider);
                if hit {
                    let mut s2 = s;
                    s2.dead = true;
                    self.ship = Some(s2);
                }
            },
            None => {},
        }
    }

    /// Resolve this tick's projectile-asteroid overlaps: every live
    /// projectile that overlaps any asteroid is spent; every asteroid takes
    /// one hit per overlapping live projectile, clamped at zero; an asteroid
    /// whose hits cross from positive to zero gets exactly one destruction
    /// record.
    pub fn projectile_asteroid_collision(&mut self)
        requires
            old(self).wf(),
        ensures
            final(self).asteroids@.len() == old(self).asteroids@.len(),
            forall|i: int|
                0 <= i < old(self).asteroids@.len() ==> {
                    let a0 = old(self).asteroids@[i];
                    let a1 = #[trigger] final(self).asteroids@[i];
                    &&& a1.id == a0.id
                    &&& a1.transform == a0.transform
                    &&& a1.collider == a0.collider
                    &&& a1.sprite_index == a0.sprite_index
                    &&& a1.asteroid.tier == a0.asteroid.tier
                    &&& a1.asteroid.rotation_speed == a0.asteroid.rotation_speed
                    &&& a1.asteroid.velocity == a0.asteroid.velocity
                    &&& a1.asteroid.hits == damaged_hits_spec(
                        a0.asteroid.hits as int,
                        overlap_count(old(self).projectiles@, a0.transform.pos, a0.collider),
                    )
                },
            final(self).destruction_events@ == old(self).destruction_events@ + destruction_seq(
                old(self).asteroids@,
                old(self).projectiles@,
            ),
            final(self).projectiles@.len() == old(self).projectiles@.len(),
            forall|k: int|
                0 <= k < old(self).projectiles@.len() ==> {
                    let p0 = old(self).projectiles@[k];
                    let p1 = #[trigger] final(self).projectiles@[k];
                    &&& p1.id == p0.id
                    &&& p1.transform == p0.transform
                    &&& p1.collider == p0.collider
                    &&& p1.projectile == p0.projectile
                    &&& p1.dead == (p0.dead || exists|i: int|
                        0 <= i < old(self).asteroids@.len() && aabb_overlap_spec(
                            p0.transform.pos,
                            p0.collider,
                            (#[trigger] old(self).asteroids@[i]).transform.pos,
                            old(self).asteroids@[i].collider,
                        ))
                },
            final(self).ship == old(self).ship,
            final(self).bounds == old(self).bounds,
            final(self).asteroid_variants == old(self).asteroid_variants,
            final(self).next_id == old(self).next_id,
            final(self).pending_asteroids@ == old(self).pending_asteroids@,
            final(self).pending_projectiles@ == old(self).pending_projectiles@,
            final(self).wf(),
    {
        proof {
            assert forall|i: int| 0 <= i < self.projectiles@.len() implies (
            #[trigger] self.projectiles@[i]).wf()
                && self.projectiles@[i].transform.pos.mag_within(MAX_MAG as int) by {
                lemma_contained_mag(self.projectiles@[i].transform.pos, self.bounds);
            }
        }
        let n: usize = self.asteroids.len();
        let mut i: usize = 0;
        while i < n
            invariant
                i <= n,
                n == self.asteroids@.len(),
                n == old(self).asteroids@.len(),
                old(self).wf(),
                self.bounds == old(self).bounds,
                self.asteroid_variants == old(self).asteroid_variants,
                self.next_id == old(self).next_id,
                self.ship == old(self).ship,
                self.projectiles@ == old(self).projectiles@,
                self.pending_asteroids@ == old(self).pending_asteroids@,
                self.pending_projectiles@ == old(self).pending_projectiles@,
                forall|j: int| i <= j < n ==> self.asteroids@[j] == old(self).asteroids@[j],
                forall|j: int|
                    0 <= j < i ==> {
                        let a0 = old(self).asteroids@[j];
                        let a1 = #[trigger] self.asteroids@[j];
                        &&& a1.id == a0.id
                        &&& a1.transform == a0.transform
                        &&& a1.collider == a0.collider
                        &&& a1.sprite_index == a0.sprite_index
                        &&& a1.asteroid.tier == a0.asteroid.tier
                        &&& a1.asteroid.rotation_speed == a0.asteroid.rotation_speed
                        &&& a1.asteroid.velocity == a0.asteroid.velocity
                        &&& a1.asteroid.hits == damaged_hits_spec(
                            a0.asteroid.hits as int,
                            overlap_count(old(self).projectiles@, a0.transform.pos, a0.collider),
                        )
                        &&& a1.wf()
                    },
                self.destruction_events@ == old(self).destruction_events@ + destruction_seq(
                    old(self).asteroids@.take(i as int),
                    old(self).projectiles@,
                ),
            decreases n - i,
        {
            let a = self.asteroids[i];
            proof {
                assert(a == old(self).asteroids@[i as int]);
                lemma_contained_mag(a.transform.pos, self.bounds);
                assert forall|j: int| 0 <= j < self.projectiles@.len() implies (
                #[trigger] self.projectiles@[j]).wf()
                    && self.projectiles@[j].transform.pos.mag_within(MAX_MAG as int) by {
                    lemma_contained_mag(self.projectiles@[j].transform.pos, self.bounds);
                }
            }
            let count = count_overlapping_projectiles(&self.projectiles, a.transform.pos,
                &a.collider);
            let mut a2 = a;
            let destroyed = apply_damage(&mut a2.asteroid, count);
            self.asteroids[i] = a2;
            if destroyed {
                self.destruction_events.push(
                    AsteroidDestructionEvent {
                        entity: a2.id,
                        asteroid_tier: a2.asteroid.tier,
                        destruction_point: a2.transform.pos,
                    },
                );
            }
            proof {
                let asts = old(self).asteroids@;
                assert(asts.take(i as int + 1).drop_last() =~= asts.take(i as int));
                assert(asts.take(i as int + 1).last() == asts[i as int]);
                lemma_overlap_count_bounds(old(self).projectiles@, a.transform.pos, a.collider);
            }
            i = i + 1;
        }
        proof {
            assert(old(self).asteroids@.take(n as int) =~= old(self).asteroids@);
        }
        let m: usize = self.projectiles.len();
        let mut k: usize = 0;
        while k < m
            invariant
                k <= m,
                m == self.projectiles@.len(),
                m == old(self).projectiles@.len(),
                old(self).wf(),
                self.bounds == old(self).bounds,
                self.asteroid_variants == old(self).asteroid_variants,
                self.next_id == old(self).next_id,
                self.ship == old(self).ship,
                self.pending_asteroids@ == old(self).pending_asteroids@,
                self.pending_projectiles@ == old(self).pending_projectiles@,
                self.asteroids@.len() == old(self).asteroids@.len(),
                forall|j: int|
                    0 <= j < old(self).asteroids@.len() ==> {
                        let a0 = old(self).asteroids@[j];
                        let a1 = #[trigger] self.asteroids@[j];
                        &&& a1.id == a0.id
                        &&& a1.transform == a0.transform
                        &&& a1.collider == a0.collider
                        &&& a1.sprite_index == a0.sprite_index
                        &&& a1.asteroid.tier == a0.asteroid.tier
                        &&& a1.asteroid.rotation_speed == a0.asteroid.rotation_speed
                        &&& a1.asteroid.velocity == a0.asteroid.velocity
                        &&& a1.asteroid.hits == damaged_hits_spec(
                            a0.asteroid.hits as int,
                            overlap_count(old(self).projectiles@, a0.transform.pos, a0.collider),
                        )
                        &&& a1.wf()
                    },
                self.destruction_events@ == old(self).destruction_events@ + destruction_seq(
                    old(self).asteroids@,
                    old(self).projectiles@,
                ),
                forall|j: int| k <= j < m ==> self.projectiles@[j] == old(self).projectiles@[j],
                forall|j: int|
                    0 <= j < k ==> {
                        let p0 = old(self).projectiles@[j];
                        let p1 = #[trigger] self.projectiles@[j];
                        &&& p1.id == p0.id
                        &&& p1.transform == p0.transform
                        &&& p1.collider == p0.collider
                        &&& p1.projectile == p0.projectile
                        &&& p1.dead == (p0.dead || exists|i2: int|
                            0 <= i2 < old(self).asteroids@.len() && aabb_overlap_spec(
                                p0.transform.pos,
                                p0.collider,
                                (#[trigger] old(self).asteroids@[i2]).transform.pos,
                                old(self).asteroids@[i2].collider,
                            ))
                    },
            decreases m - k,
        {
            let p = self.projectiles[k];
            proof {
                assert(p == old(self).projectiles@[k as int]);
                lemma_contained_mag(p.transform.pos, self.bounds);
                assert forall|j: int| 0 <= j < self.asteroids@.len() implies (
                #[trigger] self.asteroids@[j]).wf()
                    && self.asteroids@[j].transform.pos.mag_within(MAX_MAG as int) by {
                    assert(old(self).bounds.contains(old(self).asteroids@[j].transform.pos));
                    assert(self.asteroids@[j].transform == old(self).asteroids@[j].transform);
                    lemma_contained_mag(self.asteroids@[j].transform.pos, self.bounds);
                }
            }
            let hit = overlaps_any_asteroid(&self.asteroids, p.transform.pos, &p.collider);
            if hit && !p.dead {
                let mut p2 = p;
                p2.dead = true;
                self.projectiles[k] = p2;
            }
            proof {
                let asts0 = old(self).asteroids@;
                if hit {
                    let w = choose|i2: int|
                        0 <= i2 < self.asteroids@.len() && aabb_overlap_spec(
                            p.transform.pos,
                            p.collider,
                            (#[trigger] self.asteroids@[i2]).transform.pos,
                            self.asteroids@[i2].collider,
                        );
                    assert(aabb_overlap_spec(p.transform.pos, p.collider,
                        asts0[w].transform.pos, asts0[w].collider));
                } else {
                    assert forall|i2: int| 0 <= i2 < asts0.len() implies !aabb_overlap_spec(
                        p.transform.pos,
                        p.collider,
                        (#[trigger] asts0[i2]).transform.pos,
                        asts0[i2].collider,
                    ) by {
                        assert(self.asteroids@[i2].transform == asts0[i2].transform);
                        assert(self.asteroids@[i2].collider == asts0[i2].collider);
                    }
                }
            }
            k = k + 1;
        }
        proof {
            lemma_destruction_seq_wf(old(self).asteroids@, old(self).projectiles@, self.bounds);
            let evs = self.destruction_events@;
            let olde = old(self).destruction_events@;
            let newe = destruction_seq(old(self).asteroids@, old(self).projectiles@);
            assert forall|j: int| 0 <= j < evs.len() implies (#[trigger] evs[j]).wf()
                && self.bounds.contains(evs[j].destruction_point) by {
                if j < olde.len() {
                    assert(evs[j] == olde[j]);
                } else {
                    assert(evs[j] == newe[j - olde.len()]);
                }
            }
        }
    }
}

/// The projectile entity a honored fire request spawns: at the request's
/// position, along its direction, with the shooter's speed and budget.
pub open spec fn spawned_projectile_spec(
    id: u64,
    ev: ShootProjectileEvent,
    shooter: ProjectileShooter,
) -> ProjectileEntity {
    ProjectileEntity {
        id,
        transform: Transform { pos: ev.spawn_position, rot: 0i64, scale: PROJECTILE_SCALE },
        projectile: Projectile {
            direction: ev.direction,
            speed: shooter.projectile_speed,
            range: shooter.projectile_range,
        },
        collider: Collider { bounds: Vec2 { x: PROJECTILE_COLLIDER, y: PROJECTILE_COLLIDER } },
        wrap: WrapAround,
        dead: false,
    }
}

/// A child asteroid spawned by a destruction record: one tier below its
/// parent, at full hits, seeded at the destruction point, with its drawn
/// parameters inside their documented ranges — direction components in
/// [-1, 1) per axis, speed in [50, 100) units per second scaled by the
/// parent tier, spin in [1, 15) radians per second, and a sprite variant
/// among the atlas's `variants`.
pub open spec fn split_child_of(
    ev: AsteroidDestructionEvent,
    variants: int,
    c: AsteroidEntity,
) -> bool {
    &&& ev.asteroid_tier > 1
    &&& c.asteroid.tier == ev.asteroid_tier - 1
    &&& c.asteroid.hits == c.asteroid.tier
    &&& c.transform.pos == ev.destruction_point
    &&& 1_000 <= c.asteroid.rotation_speed < 15_000
    &&& c.sprite_index < variants
    &&& exists|dx: int, dy: int, sp: int|
        {
            &&& -1000 <= dx < 1000
            &&& -1000 <= dy < 1000
            &&& 50_000 * ev.asteroid_tier <= sp < 100_000 * ev.asteroid_tier
            &&& c.asteroid.velocity.x == #[trigger] tdiv1000(dx * sp)
            &&& c.asteroid.velocity.y == #[trigger] tdiv1000(dy * sp)
        }
}

/// The children of a batch of destruction records, laid out in record
/// order from `base`: for each record in turn, exactly its own split count
/// of children, each drawn from that record.
pub open spec fn children_of_events(
    events: Seq<AsteroidDestructionEvent>,
    variants: int,
    base: int,
    pending: Seq<AsteroidEntity>,
) -> bool
    decreases events.len(),
{
    if events.len() == 0 {
        true
    } else {
        &&& children_of_events(events.drop_last(), variants, base, pending)
        &&& forall|j: int|
            base + split_total(events.drop_last()) <= j < base + split_total(events)
                ==> split_child_of(events.last(), variants, #[trigger] pending[j])
    }
}

/// The layout only reads the slots below `base + split_total(events)`, so
/// it survives both appending more entries and prefixing a block of
/// `base` other entries.
pub proof fn lemma_children_of_events_frame(
    events: Seq<AsteroidDestructionEvent>,
    variants: int,
    base: int,
    p: Seq<AsteroidEntity>,
    q: Seq<AsteroidEntity>,
    shift: int,
)
    requires
        children_of_events(events, variants, base, p),
        base >= 0,
        base + split_total(events) <= p.len(),
        shift >= 0,
        forall|j: int| 0 <= j < p.len() ==> q[j + shift] == p[j],
    ensures
        children_of_events(events, variants, base + shift, q),
    decreases events.len(),
{
    if events.len() > 0 {
        lemma_split_total_take_le(events, events.len() - 1);
        assert(events.take(events.len() - 1) =~= events.drop_last());
        lemma_split_total_bounds(events.drop_last());
        lemma_children_of_events_frame(events.drop_last(), variants, base, p, q, shift);
        assert forall|j: int|
            base + shift + split_total(events.drop_last()) <= j < base + shift + split_total(
                events,
            ) implies split_child_of(events.last(), variants, #[trigger] q[j]) by {
            assert(q[j] == p[j - shift]);
        }
    }
}

/// Total number of children a batch of destruction records spawns.
pub open spec fn split_total(events: Seq<AsteroidDestructionEvent>) -> int
    decreases events.len(),
{
    if events.len() == 0 {
        0
    } else {
        split_total(events.drop_last()) + split_count_spec(events.last().asteroid_tier as int)
    }
}

pub proof fn lemma_split_total_bounds(events: Seq<AsteroidDestructionEvent>)
    ensures
        0 <= split_total(events) <= 4 * events.len(),
    decreases events.len(),
{
    if events.len() > 0 {
        lemma_split_total_bounds(events.drop_last());
    }
}

/// The asteroids that survive a tick: those whose hits are still positive,
/// in their original order.
pub open spec fn surviving_asteroids(s: Seq<AsteroidEntity>) -> Seq<AsteroidEntity>
    decreases s.len(),
{
    if s.len() == 0 {
        Seq::empty()
    } else if s.last().asteroid.hits > 0 {
        surviving_asteroids(s.drop_last()).push(s.last())
    } else {
        surviving_asteroids(s.drop_last())
    }
}

/// The projectiles that survive a tick: those not spent or burnt out, in
/// their original order.
pub open spec fn surviving_projectiles(s: Seq<ProjectileEntity>) -> Seq<ProjectileEntity>
    decreases s.len(),
{
    if s.len() == 0 {
        Seq::empty()
    } else if !s.last().dead {
        surviving_projectiles(s.drop_last()).push(s.last())
    } else {
        surviving_projectiles(s.drop_last())
    }
}

/// Every survivor is alive and comes from the original sequence.
pub proof fn lemma_surviving_asteroids_elems(s: Seq<AsteroidEntity>)
    ensures
        surviving_asteroids(s).len() <= s.len(),
        forall|j: int|
            0 <= j < surviving_asteroids(s).len() ==> (
            #[trigger] surviving_asteroids(s)[j]).asteroid.hits > 0 && exists|i: int|
                0 <= i < s.len() && surviving_asteroids(s)[j] == s[i],
    decreases s.len(),
{
    if s.len() > 0 {
        lemma_surviving_asteroids_elems(s.drop_last());
        let sv = surviving_asteroids(s);
        let rest = surviving_asteroids(s.drop_last());
        assert forall|j: int| 0 <= j < sv.len() implies (#[trigger] sv[j]).asteroid.hits > 0
            && exists|i: int| 0 <= i < s.len() && sv[j] == s[i] by {
            if j < rest.len() {
                assert(sv[j] == rest[j]);
                let i0 = choose|i: int|
                    0 <= i < s.drop_last().len() && rest[j] == s.drop_last()[i];
                assert(s.drop_last()[i0] == s[i0]);
                assert(sv[j] == s[i0]);
            } else {
                assert(sv[j] == s.last());
                assert(sv[j] == s[s.len() - 1]);
            }
        }
    }
}

/// Every survivor is live and comes from the original sequence.
pub proof fn lemma_surviving_projectiles_elems(s: Seq<ProjectileEntity>)
    ensures
        surviving_projectiles(s).len() <= s.len(),
        forall|j: int|
            0 <= j < surviving_projectiles(s).len() ==> !(
            #[trigger] surviving_projectiles(s)[j]).dead && exists|i: int|
                0 <= i < s.len() && surviving_projectiles(s)[j] == s[i],
    decreases s.len(),
{
    if s.len() > 0 {
        lemma_surviving_projectiles_elems(s.drop_last());
        let sv = surviving_projectiles(s);
        let rest = surviving_projectiles(s.drop_last());
        assert forall|j: int| 0 <= j < sv.len() implies !(#[trigger] sv[j]).dead && exists|i: int|
            0 <= i < s.len() && sv[j] == s[i] by {
            if j < rest.len() {
                assert(sv[j] == rest[j]);
                let i0 = choose|i: int|
                    0 <= i < s.drop_last().len() && rest[j] == s.drop_last()[i];
                assert(s.drop_last()[i0] == s[i0]);
                assert(sv[j] == s[i0]);
            } else {
                assert(sv[j] == s.last());
                assert(sv[j] == s[s.len() - 1]);
            }
        }
    }
}

impl World {
    /// Spawn the split children of one destroyed asteroid: each child gets a
    /// random direction, a random speed scaled by the parent tier, a random
    /// spin and a random sprite variant, at the destruction point.
    fn handle_one_destruction(&mut self, ev: &AsteroidDestructionEvent)
        requires
            old(self).wf(),
            ev.wf(),
            old(self).bounds.contains(ev.destruction_point),
            old(self).next_id + 4 <= u64::MAX,
        ensures
            final(self).pending_asteroids@.len() == old(self).pending_asteroids@.len()
                + split_count_spec(ev.asteroid_tier as int),
            forall|j: int|
                0 <= j < old(self).pending_asteroids@.len() ==> final(self).pending_asteroids@[j]
                    == old(self).pending_asteroids@[j],
            forall|j: int|
                old(self).pending_asteroids@.len() <= j < final(self).pending_asteroids@.len()
                    ==> split_child_of(*ev, old(self).asteroid_variants as int,
                    #[trigger] final(self).pending_asteroids@[j]),
            final(self).next_id == old(self).next_id + split_count_spec(ev.asteroid_tier as int),
            final(self).bounds == old(self).bounds,
            final(self).asteroid_variants == old(self).asteroid_variants,
            final(self).ship == old(self).ship,
            final(self).asteroids@ == old(self).asteroids@,
            final(self).projectiles@ == old(self).projectiles@,
            final(self).pending_projectiles@ == old(self).pending_projectiles@,
            final(self).destruction_events@ == old(self).destruction_events@,
            final(self).wf(),
    {
        let n: usize = split_count(ev.asteroid_tier);
        let base: usize = self.pending_asteroids.len();
        let mut c: usize = 0;
        while c < n
            invariant
                c <= n,
                n == split_count_spec(ev.asteroid_tier as int),
                ev.wf(),
                n > 0 ==> ev.asteroid_tier > 1,
                base == old(self).pending_asteroids@.len(),
                self.bounds.contains(ev.destruction_point),
                self.pending_asteroids@.len() == base + c,
                forall|j: int|
                    0 <= j < base ==> self.pending_asteroids@[j] == old(
                        self,
                    ).pending_asteroids@[j],
                forall|j: int|
                    base <= j < base + c ==> split_child_of(*ev,
                        old(self).asteroid_variants as int,
                        #[trigger] self.pending_asteroids@[j]),
                self.next_id == old(self).next_id + c,
                old(self).next_id + 4 <= u64::MAX,
                self.bounds == old(self).bounds,
                self.asteroid_variants == old(self).asteroid_variants,
                self.ship == old(self).ship,
                self.asteroids@ == old(self).asteroids@,
                self.projectiles@ == old(self).projectiles@,
                self.pending_projectiles@ == old(self).pending_projectiles@,
                self.destruction_events@ == old(self).destruction_events@,
                self.wf(),
            decreases n - c,
        {
            let dir_x = rng_range_i64(&mut self.rng, -1000, 1000);
            let dir_y = rng_range_i64(&mut self.rng, -1000, 1000);
            let speed_unit = rng_range_i64(&mut self.rng, 50_000, 100_000);
            proof {
                assert(0 <= speed_unit * (ev.asteroid_tier as i64) <= 100_000_000)
                    by (nonlinear_arith)
                    requires
                        50_000 <= speed_unit < 100_000,
                        1 <= ev.asteroid_tier <= 1000,
                ;
            }
            let speed: i64 = speed_unit * ev.asteroid_tier as i64;
            let rotation_speed = rng_range_i64(&mut self.rng, 1_000, 15_000);
            let variants: i64 = self.asteroid_variants as i64;
            let sprite: usize = rng_range_i64(&mut self.rng, 0, variants) as usize;
            proof {
                assert(50_000 * (ev.asteroid_tier as int) <= speed < 100_000 * (
                ev.asteroid_tier as int)) by (nonlinear_arith)
                    requires
                        50_000 <= speed_unit < 100_000,
                        1 <= ev.asteroid_tier,
                        speed == speed_unit * (ev.asteroid_tier as int),
                ;
            }
            spawn_asteroid(self, ev.asteroid_tier - 1, rotation_speed, speed,
                Vec2 { x: dir_x, y: dir_y }, ev.destruction_point, sprite);
            proof {
                let child = self.pending_asteroids@.last();
                lemma_mul_mag_bound(dir_x as int, speed as int, 1000, 100_000_000);
                lemma_mul_mag_bound(dir_y as int, speed as int, 1000, 100_000_000);
                lemma_tdiv1000_mag(dir_x * speed);
                lemma_tdiv1000_mag(dir_y * speed);
                assert(child.asteroid.velocity.x == tdiv1000(dir_x * speed));
                assert(child.asteroid.velocity.y == tdiv1000(dir_y * speed));
                assert(split_child_of(*ev, old(self).asteroid_variants as int, child));
            }
            c = c + 1;
        }
    }

    /// Consume this tick's destruction records: each destroyed asteroid
    /// queues its split children. The destroyed asteroids themselves are
    /// removed when the tick's structural changes are committed.
    pub fn asteroid_destruction_event(&mut self)
        requires
            old(self).wf(),
            old(self).next_id + 4 * old(self).destruction_events@.len() <= u64::MAX,
        ensures
            final(self).destruction_events@.len() == 0,
            final(self).pending_asteroids@.len() == old(self).pending_asteroids@.len()
                + split_total(old(self).destruction_events@),
            forall|j: int|
                0 <= j < old(self).pending_asteroids@.len() ==> final(self).pending_asteroids@[j]
                    == old(self).pending_asteroids@[j],
            forall|j: int|
                old(self).pending_asteroids@.len() <= j < final(self).pending_asteroids@.len()
                    ==> exists|k: int|
                    0 <= k < old(self).destruction_events@.len() && split_child_of(
                        old(self).destruction_events@[k],
                        old(self).asteroid_variants as int,
                        #[trigger] final(self).pending_asteroids@[j],
                    ),
            children_of_events(old(self).destruction_events@, old(self).asteroid_variants as int,
                old(self).pending_asteroids@.len() as int, final(self).pending_asteroids@),
            final(self).next_id == old(self).next_id + split_total(old(self).destruction_events@),
            final(self).bounds == old(self).bounds,
            final(self).asteroid_variants == old(self).asteroid_variants,
            final(self).ship == old(self).ship,
            final(self).asteroids@ == old(self).asteroids@,
            final(self).projectiles@ == old(self).projectiles@,
            final(self).pending_projectiles@ == old(self).pending_projectiles@,
            final(self).wf(),
    {
        let n: usize = self.destruction_events.len();
        let base: usize = self.pending_asteroids.len();
        let mut k: usize = 0;
        while k < n
            invariant
                k <= n,
                n == self.destruction_events@.len(),
                self.destruction_events@ == old(self).destruction_events@,
                base == old(self).pending_asteroids@.len(),
                self.pending_asteroids@.len() == base + split_total(
                    old(self).destruction_events@.take(k as int),
                ),
                forall|j: int|
                    0 <= j < base ==> self.pending_asteroids@[j] == old(
                        self,
                    ).pending_asteroids@[j],
                forall|j: int|
                    base <= j < self.pending_asteroids@.len() ==> exists|k2: int|
                        0 <= k2 < old(self).destruction_events@.len() && split_child_of(
                            old(self).destruction_events@[k2],
                            old(self).asteroid_variants as int,
                            #[trigger] self.pending_asteroids@[j],
                        ),
                children_of_events(old(self).destruction_events@.take(k as int),
                    old(self).asteroid_variants as int, base as int, self.pending_asteroids@),
                self.next_id == old(self).next_id + split_total(
                    old(self).destruction_events@.take(k as int),
                ),
                old(self).next_id + 4 * old(self).destruction_events@.len() <= u64::MAX,
                self.bounds == old(self).bounds,
                self.asteroid_variants == old(self).asteroid_variants,
                self.ship == old(self).ship,
                self.asteroids@ == old(self).asteroids@,
                self.projectiles@ == old(self).projectiles@,
                self.pending_projectiles@ == old(self).pending_projectiles@,
                self.wf(),
            decreases n - k,
        {
            let ev = self.destruction_events[k];
            proof {
                let evs = old(self).destruction_events@;
                lemma_split_total_bounds(evs.take(k as int));
                lemma_split_total_bounds(evs);
                assert(evs.take(k as int + 1).drop_last() =~= evs.take(k as int));
                assert(evs.take(k as int + 1).last() == evs[k as int]);
                // the children spawned so far stay below the overall budget
                lemma_split_total_take_le(evs, k as int + 1);
            }
            let ghost base2 = self.pending_asteroids@.len();
            let ghost pend2 = self.pending_asteroids@;
            self.handle_one_destruction(&ev);
            proof {
                assert forall|j: int|
                    base <= j < self.pending_asteroids@.len() implies exists|k2: int|
                        0 <= k2 < old(self).destruction_events@.len() && split_child_of(
                            old(self).destruction_events@[k2],
                            old(self).asteroid_variants as int,
                            #[trigger] self.pending_asteroids@[j],
                        ) by {
                    if j >= base2 {
                        assert(split_child_of(old(self).destruction_events@[k as int],
                            old(self).asteroid_variants as int, self.pending_asteroids@[j]));
                    }
                }
                let evs = old(self).destruction_events@;
                lemma_children_of_events_frame(evs.take(k as int),
                    old(self).asteroid_variants as int, base as int, pend2,
                    self.pending_asteroids@, 0);
                assert forall|j: int|
                    base as int + split_total(evs.take(k as int)) <= j < base as int + split_total(
                        evs.take(k as int + 1),
                    ) implies split_child_of(evs.take(k as int + 1).last(),
                    old(self).asteroid_variants as int,
                    #[trigger] self.pending_asteroids@[j]) by {
                    assert(evs.take(k as int + 1).last() == evs[k as int]);
                    assert(base2 <= j < self.pending_asteroids@.len());
                }
                assert(children_of_events(evs.take(k as int + 1),
                    old(self).asteroid_variants as int, base as int, self.pending_asteroids@));
            }
            k = k + 1;
        }
        proof {
            assert(old(self).destruction_events@.take(n as int) =~= old(
                self,
            ).destruction_events@);
        }
        self.destruction_events.clear();
    }

    /// Commit the tick's structural changes in one pass: drop the dead ship,
    /// drop destroyed asteroids and spent projectiles, then attach the
    /// spawns queued during the tick, in request order.
    pub fn commit_structural_changes(&mut self)
        requires
            old(self).wf(),
        ensures
            (match old(self).ship {
                Some(s) => final(self).ship == if s.dead {
                    None::<ShipEntity>
                } else {
                    Some(s)
                },
                None => final(self).ship is None,
            }),
            final(self).asteroids@ == surviving_asteroids(old(self).asteroids@) + old(
                self,
            ).pending_asteroids@,
            final(self).projectiles@ == surviving_projectiles(old(self).projectiles@) + old(
                self,
            ).pending_projectiles@,
            final(self).pending_asteroids@.len() == 0,
            final(self).pending_projectiles@.len() == 0,
            final(self).destruction_events@ == old(self).destruction_events@,
            final(self).bounds == old(self).bounds,
            final(self).asteroid_variants == old(self).asteroid_variants,
            final(self).next_id == old(self).next_id,
            final(self).wf(),
    {
        match self.ship {
            Some(s) => {
                if s.dead {
                    self.ship = None;
                }
            },
            None => {},
        }
        let n: usize = self.asteroids.len();
        let mut kept_a: Vec<AsteroidEntity> = Vec::new();
        let mut i: usize = 0;
        while i < n
            invariant
                i <= n,
                n == self.asteroids@.len(),
                self.asteroids@ == old(self).asteroids@,
                kept_a@ == surviving_asteroids(self.asteroids@.take(i as int)),
                kept_a@.len() <= i,
            decreases n - i,
        {
            let a = self.asteroids[i];
            proof {
                assert(self.asteroids@.take(i as int + 1).drop_last() =~= self.asteroids@.take(
                    i as int,
                ));
                assert(self.asteroids@.take(i as int + 1).last() == self.asteroids@[i as int]);
            }
            if a.asteroid.hits > 0 {
                kept_a.push(a);
            }
            i = i + 1;
        }
        proof {
            assert(self.asteroids@.take(n as int) =~= self.asteroids@);
        }
        kept_a.append(&mut self.pending_asteroids);
        self.asteroids = kept_a;

        let m: usize = self.projectiles.len();
        let mut kept_p: Vec<ProjectileEntity> = Vec::new();
        let mut k: usize = 0;
        while k < m
            invariant
                k <= m,
                m == self.projectiles@.len(),
                self.projectiles@ == old(self).projectiles@,
                kept_p@ == surviving_projectiles(self.projectiles@.take(k as int)),
                kept_p@.len() <= k,
            decreases m - k,
        {
            let p = self.projectiles[k];
            proof {
                assert(self.projectiles@.take(k as int + 1).drop_last() =~= self.projectiles@.take(
                    k as int,
                ));
                assert(self.projectiles@.take(k as int + 1).last() == self.projectiles@[k as int]);
            }
            if !p.dead {
                kept_p.push(p);
            }
            k = k + 1;
        }
        proof {
            assert(self.projectiles@.take(m as int) =~= self.projectiles@);
        }
        kept_p.append(&mut self.pending_projectiles);
        self.projectiles = kept_p;

        proof {
            lemma_surviving_asteroids_elems(old(self).asteroids@);
            lemma_surviving_projectiles_elems(old(self).projectiles@);
            assert forall|j: int| 0 <= j < self.asteroids@.len() implies (
            #[trigger] self.asteroids@[j]).wf() && self.bounds.contains(
                self.asteroids@[j].transform.pos,
            ) by {
                let sv = surviving_asteroids(old(self).asteroids@);
                if j < sv.len() {
                    let i0 = choose|i2: int|
                        0 <= i2 < old(self).asteroids@.len() && sv[j] == old(self).asteroids@[i2];
                    assert(self.asteroids@[j] == old(self).asteroids@[i0]);
                } else {
                    assert(self.asteroids@[j] == old(self).pending_asteroids@[j - sv.len()]);
                }
            }
            assert forall|j: int| 0 <= j < self.projectiles@.len() implies (
            #[trigger] self.projectiles@[j]).wf() && self.bounds.contains(
                self.projectiles@[j].transform.pos,
            ) by {
                let sv = surviving_projectiles(old(self).projectiles@);
                if j < sv.len() {
                    let i0 = choose|i2: int|
                        0 <= i2 < old(self).projectiles@.len() && sv[j] == old(
                            self,
                        ).projectiles@[i2];
                    assert(self.projectiles@[j] == old(self).projectiles@[i0]);
                } else {
                    assert(self.projectiles@[j] == old(self).pending_projectiles@[j - sv.len()]);
                }
            }
        }
    }

    /// One fixed simulation tick: sample the player's controls, advance
    /// every entity's kinematics, wrap positions back onto the playfield,
    /// detect and resolve collisions, split destroyed asteroids, and commit
    /// all structural changes in one pass at the end.
    pub fn tick(&mut self, input: &ShipInput, dt: u32)
        requires
            old(self).wf(),
            old(self).quiescent(),
            input.wf(),
            dt <= 1000,
            forall|j: int|
                0 <= j < old(self).projectiles@.len() ==> !(
                #[trigger] old(self).projectiles@[j]).dead,
            old(self).ship matches Some(s) ==> !s.dead,
            old(self).next_id + 5 + 4 * old(self).asteroids@.len() < u64::MAX,
        ensures
            final(self).wf(),
            final(self).quiescent(),
            final(self).bounds == old(self).bounds,
            final(self).asteroid_variants == old(self).asteroid_variants,
            final(self).ship matches Some(s2) ==> old(self).ship matches Some(s) && s2.id == s.id
                && !s2.dead,
            old(self).ship is None ==> final(self).ship is None,
            forall|j: int|
                0 <= j < final(self).projectiles@.len() ==> !(
                #[trigger] final(self).projectiles@[j]).dead,
            forall|j: int|
                0 <= j < final(self).asteroids@.len() ==> (
                #[trigger] final(self).asteroids@[j]).asteroid.hits > 0,
            forall|j: int|
                0 <= j < final(self).asteroids@.len() ==> {
                    let a1 = #[trigger] final(self).asteroids@[j];
                    (exists|i: int|
                        0 <= i < old(self).asteroids@.len() && {
                            let a0 = #[trigger] old(self).asteroids@[i];
                            &&& a1.id == a0.id
                            &&& a1.asteroid.tier == a0.asteroid.tier
                            &&& a1.asteroid.hits <= a0.asteroid.hits
                        }) || a1.asteroid.hits == a1.asteroid.tier
                },
            old(self).ship matches Some(s0) ==> ({
                let fired = tick_fired(*old(self), *input, dt as int);
                let s5 = ship_after_phases(s0, *input, fired, old(self).bounds, dt as int);
                &&& final(self).ship == (if tick_ship_hit(
                    s5,
                    moved_asteroids(*old(self), dt as int),
                ) {
                    None::<ShipEntity>
                } else {
                    Some(s5)
                })
                &&& final(self).projectiles@ == surviving_projectiles(
                    resolved_projectiles(*old(self), dt as int),
                ) + (if fired {
                    seq![
                        spawned_projectile_spec(
                            old(self).next_id,
                            tick_fire_event(s0, *input),
                            s0.shooter,
                        ),
                    ]
                } else {
                    Seq::<ProjectileEntity>::empty()
                })
                &&& final(self).next_id == old(self).next_id + (if fired {
                    1int
                } else {
                    0int
                }) + split_total(tick_destructions(*old(self), dt as int))
            }),
            old(self).ship is None ==> final(self).projectiles@ == surviving_projectiles(
                resolved_projectiles(*old(self), dt as int),
            ) && final(self).next_id == old(self).next_id + split_total(
                tick_destructions(*old(self), dt as int),
            ),
            final(self).asteroids@.len() == surviving_asteroids(
                resolved_asteroids(*old(self), dt as int),
            ).len() + split_total(tick_destructions(*old(self), dt as int)),
            forall|j: int|
                0 <= j < surviving_asteroids(resolved_asteroids(*old(self), dt as int)).len()
                    ==> #[trigger] final(self).asteroids@[j] == surviving_asteroids(
                    resolved_asteroids(*old(self), dt as int),
                )[j],
            children_of_events(
                tick_destructions(*old(self), dt as int),
                old(self).asteroid_variants as int,
                surviving_asteroids(resolved_asteroids(*old(self), dt as int)).len() as int,
                final(self).asteroids@,
            ),
    {
        let ghost w0 = *self;
        let fire_request = self.player_input(input, dt);
        let ghost ship_in = self.ship;
        self.handle_attack_speed(dt);
        let ghost ship_cd = self.ship;
        let ghost nid_pre = self.next_id;
        match fire_request {
            Some(ev) => {
                self.shoot_projectile_event(&ev);
            },
            None => {},
        }
        let ghost ship_sh = self.ship;
        let ghost pend_p = self.pending_projectiles@;
        let ghost nid_sh = self.next_id;
        self.ship_movement(input.heading, dt);
        let ghost a_start = self.asteroids@;
        self.asteroid_movement(dt);
        let ghost a_moved = self.asteroids@;
        let ghost p_start = self.projectiles@;
        self.handle_projectiles(dt);
        let ghost p_moved = self.projectiles@;
        self.wrap_positions_around_world();
        let ghost a_wrapped = self.asteroids@;
        let ghost p_wrapped = self.projectiles@;
        let ghost ship_wr = self.ship;
        proof {
            let dti = dt as int;
            let ma = moved_asteroids(w0, dti);
            let mp = moved_projectiles(w0, dti);
            assert(a_start == w0.asteroids@);
            assert(p_start == w0.projectiles@);
            // the asteroid and projectile vectors have reached exactly their
            // post-motion spec values
            assert forall|i: int| 0 <= i < ma.len() implies a_wrapped[i] == ma[i] by {
                let a0 = w0.asteroids@[i];
                assert(asteroid_stepped(a0, a_moved[i], dti));
                assert((a0.transform.pos.x + tdiv1000(a0.asteroid.velocity.x * dti)) as i64
                    == a_moved[i].transform.pos.x);
                assert((a0.transform.pos.y + tdiv1000(a0.asteroid.velocity.y * dti)) as i64
                    == a_moved[i].transform.pos.y);
                assert(norm_angle_spec(a0.transform.rot + tdiv1000(
                    a0.asteroid.rotation_speed * dti,
                )) as i64 == a_moved[i].transform.rot);
                assert(a_wrapped[i].transform.pos == wrap_position_spec(
                    a_moved[i].transform.pos,
                    w0.bounds,
                ));
                assert(a_wrapped[i] == ma[i]);
            }
            assert(a_wrapped =~= ma);
            assert forall|i: int| 0 <= i < mp.len() implies p_wrapped[i] == mp[i] by {
                let p0 = w0.projectiles@[i];
                let travel = travel_spec(p0.projectile.speed as int, dti);
                assert(projectile_stepped(p0, p_moved[i], dti));
                assert((p0.transform.pos.x + tdiv1000(p0.projectile.direction.x * travel)) as i64
                    == p_moved[i].transform.pos.x);
                assert((p0.transform.pos.y + tdiv1000(p0.projectile.direction.y * travel)) as i64
                    == p_moved[i].transform.pos.y);
                assert((p0.projectile.range - travel) as i64 == p_moved[i].projectile.range);
                assert(p_moved[i].dead == (p0.projectile.range - travel <= 0));
                assert(p_wrapped[i].transform.pos == wrap_position_spec(
                    p_moved[i].transform.pos,
                    w0.bounds,
                ));
                assert(p_wrapped[i] == mp[i]);
            }
            assert(p_wrapped =~= mp);
            // the ship has reached exactly its post-phase spec value, and the
            // pending projectile is exactly the honored fire request
            match w0.ship {
                Some(s0) => {
                    let fired = tick_fired(w0, *input, dti);
                    let s5 = ship_after_phases(s0, *input, fired, w0.bounds, dti);
                    let s1 = ship_in->Some_0;
                    let s2 = ship_cd->Some_0;
                    let s3 = ship_sh->Some_0;
                    let sw = ship_wr->Some_0;
                    assert(s1.player == Player && s2.player == Player && s3.player == Player
                        && sw.player == Player && s0.player == Player && s5.player == Player);
                    assert(s1.wrap == WrapAround && s2.wrap == WrapAround && s3.wrap == WrapAround
                        && sw.wrap == WrapAround);
                    assert(s2.shooter.attack_speed.remaining == sat_sub(
                        s0.shooter.attack_speed.remaining as int,
                        dti,
                    ));
                    if input.fire {
                        assert(fire_request == Some(tick_fire_event(s0, *input)));
                        assert(fired == (s2.shooter.attack_speed.remaining == 0));
                        if fired {
                            assert(s3.shooter.attack_speed.remaining
                                == s0.shooter.attack_speed.period);
                            assert(pend_p == w0.pending_projectiles@.push(
                                spawned_projectile_spec(nid_pre, tick_fire_event(s0, *input),
                                    s2.shooter),
                            ));
                            assert(spawned_projectile_spec(nid_pre, tick_fire_event(s0, *input),
                                s2.shooter) == spawned_projectile_spec(w0.next_id,
                                tick_fire_event(s0, *input), s0.shooter));
                            assert(pend_p =~= seq![
                                spawned_projectile_spec(w0.next_id, tick_fire_event(s0, *input),
                                    s0.shooter),
                            ]);
                            assert(nid_sh == w0.next_id + 1);
                        } else {
                            assert(ship_sh == ship_cd);
                            assert(pend_p =~= Seq::<ProjectileEntity>::empty());
                            assert(nid_sh == w0.next_id);
                        }
                    } else {
                        assert(fire_request is None);
                        assert(!fired);
                        assert(ship_sh == ship_cd);
                        assert(pend_p =~= Seq::<ProjectileEntity>::empty());
                        assert(nid_sh == w0.next_id);
                    }
                    assert(s3.shooter.attack_speed.remaining == (if fired {
                        s0.shooter.attack_speed.period as int
                    } else {
                        sat_sub(s0.shooter.attack_speed.remaining as int, dti)
                    }));
                    assert(ship_stepped(s3, sw, input.heading, dti) || {
                        // movement then wrap: relate through the pre-wrap ship
                        true
                    });
                    // velocity and position through movement and wrap
                    let ship1 = Ship {
                        friction: s0.ship.friction,
                        acceleration: s0.ship.acceleration,
                        speed: s0.ship.speed,
                        rotation_speed: s0.ship.rotation_speed,
                        moving: input.forward,
                        velocity: s0.ship.velocity,
                    };
                    assert(s3.ship == ship1);
                    assert(sw.ship.velocity == ship_velocity_after(ship1, dti));
                    assert((s0.transform.pos.x + tdiv1000(
                        input.heading.x * tdiv1000(sw.ship.velocity.x * dti),
                    )) as i64 == s0.transform.pos.x + tdiv1000(
                        input.heading.x * tdiv1000(sw.ship.velocity.x * dti),
                    ));
                    assert(sw.transform.rot == rot_after_input_spec(s0.transform.rot as int,
                        s0.ship.rotation_speed as int, input.rotate_left, input.rotate_right,
                        dti) as i64);
                    assert(sw == s5);
                },
                None => {
                    assert(ship_wr is None);
                    assert(pend_p =~= Seq::<ProjectileEntity>::empty());
                    assert(nid_sh == w0.next_id);
                },
            }
        }
        self.ship_asteroid_collision();
        let ghost ship_hit = self.ship;
        let ghost asts_pre = self.asteroids@;
        let ghost projs_pre = self.projectiles@;
        self.projectile_asteroid_collision();
        proof {
            lemma_destruction_seq_len(asts_pre, projs_pre);
            assert(self.destruction_events@.len() <= asts_pre.len());
        }
        let ghost a_damaged = self.asteroids@;
        let ghost p_spent = self.projectiles@;
        let ghost ev_buf = self.destruction_events@;
        self.asteroid_destruction_event();
        proof {
            lemma_surviving_asteroids_elems(self.asteroids@);
            lemma_surviving_projectiles_elems(self.projectiles@);
        }
        let ghost children = self.pending_asteroids@;
        self.commit_structural_changes();
        proof {
            // hits are monotone across the tick: each survivor keeps its id
            // and tier and has absorbed damage only; everything else in the
            // vector is a freshly split child at full hits
            assert(a_start == old(self).asteroids@);
            assert(asts_pre == a_wrapped);
            let sv = surviving_asteroids(a_damaged);
            lemma_surviving_asteroids_elems(a_damaged);
            assert forall|j: int| 0 <= j < self.asteroids@.len() implies {
                let a1 = #[trigger] self.asteroids@[j];
                (exists|i: int|
                    0 <= i < old(self).asteroids@.len() && {
                        let a0 = #[trigger] old(self).asteroids@[i];
                        &&& a1.id == a0.id
                        &&& a1.asteroid.tier == a0.asteroid.tier
                        &&& a1.asteroid.hits <= a0.asteroid.hits
                    }) || a1.asteroid.hits == a1.asteroid.tier
            } by {
                let a1 = self.asteroids@[j];
                if j < sv.len() {
                    assert(a1 == sv[j]);
                    let i0 = choose|i: int| 0 <= i < a_damaged.len() && sv[j] == a_damaged[i];
                    assert(a_damaged[i0].id == a_wrapped[i0].id);
                    assert(a_damaged[i0].asteroid.tier == a_wrapped[i0].asteroid.tier);
                    lemma_overlap_count_bounds(projs_pre, a_wrapped[i0].transform.pos,
                        a_wrapped[i0].collider);
                    assert(a_damaged[i0].asteroid.hits <= a_wrapped[i0].asteroid.hits);
                    assert(a_wrapped[i0].id == a_moved[i0].id);
                    assert(a_wrapped[i0].asteroid == a_moved[i0].asteroid);
                    assert(asteroid_stepped(a_start[i0], a_moved[i0], dt as int));
                    assert(a_moved[i0].id == a_start[i0].id);
                    assert(a_moved[i0].asteroid == a_start[i0].asteroid);
                    assert(0 <= i0 < old(self).asteroids@.len() && {
                        let a0 = old(self).asteroids@[i0];
                        &&& a1.id == a0.id
                        &&& a1.asteroid.tier == a0.asteroid.tier
                        &&& a1.asteroid.hits <= a0.asteroid.hits
                    });
                } else {
                    assert(a1 == children[j - sv.len()]);
                    assert(a1.asteroid.hits == a1.asteroid.tier);
                }
            }
            // the pipeline conclusions: the committed vectors are exactly the
            // survivors of the resolved spec values plus this tick's spawns
            let dti = dt as int;
            let ma = moved_asteroids(w0, dti);
            let mp = moved_projectiles(w0, dti);
            let ra = resolved_asteroids(w0, dti);
            let rp = resolved_projectiles(w0, dti);
            let evs = tick_destructions(w0, dti);
            assert(a_wrapped == ma);
            assert(p_wrapped == mp);
            assert forall|i: int| 0 <= i < ra.len() implies a_damaged[i] == ra[i] by {
                lemma_overlap_count_bounds(mp, ma[i].transform.pos, ma[i].collider);
                assert(a_damaged[i].asteroid.hits == damaged_hits_spec(
                    ma[i].asteroid.hits as int,
                    overlap_count(mp, ma[i].transform.pos, ma[i].collider),
                ));
                assert(a_damaged[i] == ra[i]);
            }
            assert(a_damaged =~= ra);
            assert(ev_buf =~= evs);
            assert forall|k2: int| 0 <= k2 < rp.len() implies p_spent[k2] == rp[k2] by {
                let p0 = mp[k2];
                if p_spent[k2].dead && !p0.dead {
                    let i0 = choose|i: int|
                        0 <= i < a_wrapped.len() && aabb_overlap_spec(
                            p0.transform.pos,
                            p0.collider,
                            (#[trigger] a_wrapped[i]).transform.pos,
                            a_wrapped[i].collider,
                        );
                    assert(aabb_overlap_spec(p0.transform.pos, p0.collider,
                        ma[i0].transform.pos, ma[i0].collider));
                    assert(rp[k2].dead);
                }
                if rp[k2].dead && !p0.dead {
                    let i1 = choose|i: int|
                        0 <= i < ma.len() && aabb_overlap_spec(
                            p0.transform.pos,
                            p0.collider,
                            (#[trigger] ma[i]).transform.pos,
                            ma[i].collider,
                        );
                    assert(aabb_overlap_spec(p0.transform.pos, p0.collider,
                        a_wrapped[i1].transform.pos, a_wrapped[i1].collider));
                    assert(p_spent[k2].dead);
                }
                assert(p_spent[k2].dead == rp[k2].dead);
                assert(p_spent[k2] == rp[k2]);
            }
            assert(p_spent =~= rp);
            match w0.ship {
                Some(s0) => {
                    let fired = tick_fired(w0, *input, dti);
                    let s5 = ship_after_phases(s0, *input, fired, w0.bounds, dti);
                    let sw = ship_wr->Some_0;
                    let sc = ship_hit->Some_0;
                    assert(sw == s5);
                    assert(sc.player == Player && sc.wrap == WrapAround);
                    if sc.dead {
                        let j0 = choose|j: int|
                            0 <= j < a_wrapped.len() && aabb_overlap_spec(
                                sw.transform.pos,
                                sw.collider,
                                (#[trigger] a_wrapped[j]).transform.pos,
                                a_wrapped[j].collider,
                            );
                        assert(aabb_overlap_spec(s5.transform.pos, s5.collider,
                            ma[j0].transform.pos, ma[j0].collider));
                        assert(tick_ship_hit(s5, ma));
                    }
                    if tick_ship_hit(s5, ma) {
                        let j1 = choose|j: int|
                            0 <= j < ma.len() && aabb_overlap_spec(
                                s5.transform.pos,
                                s5.collider,
                                (#[trigger] ma[j]).transform.pos,
                                ma[j].collider,
                            );
                        assert(aabb_overlap_spec(sw.transform.pos, sw.collider,
                            a_wrapped[j1].transform.pos, a_wrapped[j1].collider));
                        assert(sc.dead);
                    }
                    assert(sc.dead == tick_ship_hit(s5, ma));
                    if !sc.dead {
                        assert(sc == s5);
                        assert(self.ship == Some(s5));
                    } else {
                        assert(self.ship is None);
                    }
                    assert(self.projectiles@ == surviving_projectiles(rp) + pend_p);
                    assert(self.next_id == nid_sh + split_total(evs));
                    if !fired {
                        assert(self.projectiles@ =~= surviving_projectiles(rp)
                            + Seq::<ProjectileEntity>::empty());
                    }
                },
                None => {
                    assert(self.ship is None);
                    assert(self.projectiles@ == surviving_projectiles(rp) + pend_p);
                    assert(self.projectiles@ =~= surviving_projectiles(rp));
                    assert(self.next_id == nid_sh + split_total(evs));
                },
            }
            // asteroid vector structure and the per-record child layout
            assert(self.asteroids@ == surviving_asteroids(ra) + children);
            assert(children.len() == split_total(evs));
            let svlen = surviving_asteroids(ra).len() as int;
            assert forall|j: int| 0 <= j < children.len() implies self.asteroids@[j + svlen]
                == children[j] by {
                assert(self.asteroids@[j + svlen] == (surviving_asteroids(ra) + children)[j
                    + svlen]);
            }
            lemma_children_of_events_frame(evs, w0.asteroid_variants as int, 0, children,
                self.asteroids@, svlen);
        }
    }
}

/// Children spawned from a prefix of a batch never exceed the whole batch's
/// budget.
pub proof fn lemma_split_total_take_le(events: Seq<AsteroidDestructionEvent>, k: int)
    requires
        0 <= k <= events.len(),
    ensures
        split_total(events.take(k)) <= split_total(events),
    decreases events.len() - k,
{
    if k < events.len() {
        lemma_split_total_take_le(events, k + 1);
        assert(events.take(k + 1).drop_last() =~= events.take(k));
        assert(events.take(k + 1).last() == events[k]);
        lemma_split_total_bounds(events.take(k));
    } else {
        assert(events.take(k) =~= events);
    }
}

} // verus!
