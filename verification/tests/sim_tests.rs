use asteroids_core::asteroid::{spawn_asteroid, Asteroid};
use asteroids_core::collision::Collider;
use asteroids_core::math::{Transform, Vec2};
use asteroids_core::projectile::Projectile;
use asteroids_core::ship::{ship_animation_frame, ShipInput};
use asteroids_core::sim::{ProjectileEntity, World};
use asteroids_core::world::{WorldBounds, WrapAround};

fn reference_bounds() -> WorldBounds {
    WorldBounds::from_viewport(1_280_000, 720_000)
}

fn idle_input() -> ShipInput {
    ShipInput {
        forward: false,
        rotate_left: false,
        rotate_right: false,
        fire: false,
        heading: Vec2 { x: 0, y: 1000 },
    }
}

fn projectile_at(id: u64, x: i64, y: i64) -> ProjectileEntity {
    ProjectileEntity {
        id,
        transform: Transform { pos: Vec2 { x, y }, rot: 0, scale: 2_000 },
        projectile: Projectile { direction: Vec2 { x: 0, y: 0 }, speed: 0, range: 100_000 },
        collider: Collider { bounds: Vec2 { x: 16_000, y: 16_000 } },
        wrap: WrapAround,
        dead: false,
    }
}

#[test]
fn populate_seeds_three_asteroids() {
    let mut w = World::new(reference_bounds(), 3, 7);
    w.populate_with_asteroids();
    assert_eq!(w.asteroids.len(), 3);
    assert_eq!(w.asteroids[0].asteroid.tier, 4);
    assert_eq!(w.asteroids[1].asteroid.tier, 6);
    assert_eq!(w.asteroids[2].asteroid.tier, 2);
    for a in &w.asteroids {
        assert_eq!(a.asteroid.hits, a.asteroid.tier);
    }
    // direction * speed, scaled: (-450, 350) milli at 750 units/s
    assert_eq!(w.asteroids[0].asteroid.velocity.x, -337_500);
    assert_eq!(w.asteroids[0].asteroid.velocity.y, 262_500);
}

#[test]
fn spawned_asteroid_collider_and_scale_grow_with_tier() {
    let mut w = World::new(reference_bounds(), 3, 7);
    spawn_asteroid(&mut w, 5, 1_000, 100_000, Vec2 { x: 1000, y: 0 }, Vec2 { x: 0, y: 0 }, 0);
    assert_eq!(w.pending_asteroids.len(), 1);
    let a = &w.pending_asteroids[0];
    assert_eq!(a.collider.bounds.x, 5 * 12_800);
    assert_eq!(a.collider.bounds.y, 5 * 12_800);
    assert_eq!(a.transform.scale, 5_000);
    assert_eq!(a.asteroid.velocity.x, 100_000);
    assert_eq!(a.asteroid.velocity.y, 0);
}

#[test]
fn ship_survives_until_the_tick_overlap_first_occurs() {
    // ship at the origin, stationary; a tier-4 asteroid closes in at
    // 100 units/s along the x axis. Overlap needs |dx| < 64 + 51.2 units.
    let mut w = World::new(reference_bounds(), 3, 7);
    w.spawn_player_ship();
    spawn_asteroid(
        &mut w,
        4,
        0,
        100_000,
        Vec2 { x: -1000, y: 0 },
        Vec2 { x: 300_000, y: 0 },
        0,
    );
    w.commit_structural_changes();
    // 10 units per 100 ms tick from x = 300: first overlap (x < 115.2)
    // on tick 19 (x = 110); the ship must be despawned then, no earlier
    let input = idle_input();
    for _ in 0..18 {
        w.tick(&input, 100);
        assert!(w.ship.is_some());
    }
    w.tick(&input, 100);
    assert!(w.ship.is_none());
    // the asteroid itself is unharmed
    assert_eq!(w.asteroids.len(), 1);
    assert_eq!(w.asteroids[0].asteroid.hits, 4);
}

#[test]
fn destroying_a_tier_7_asteroid_yields_four_tier_6_children() {
    let mut w = World::new(reference_bounds(), 3, 7);
    spawn_asteroid(&mut w, 7, 0, 0, Vec2 { x: 0, y: 0 }, Vec2 { x: 0, y: 0 }, 0);
    w.commit_structural_changes();
    w.asteroids[0].asteroid.hits = 1;
    w.projectiles.push(projectile_at(100, 0, 0));
    w.tick(&idle_input(), 16);
    assert_eq!(w.asteroids.len(), 4);
    for c in &w.asteroids {
        assert_eq!(c.asteroid.tier, 6);
        assert_eq!(c.asteroid.hits, 6);
        // children spawn at the destruction point, then drift one tick;
        // speeds are below 100 units/s per tier, so they stay close
        assert!(c.transform.pos.x.abs() <= 70_000);
        assert!(c.transform.pos.y.abs() <= 70_000);
        // spawn parameter ranges: speed in [50, 100) units/s scaled by
        // tier 7, spin in [1, 15) rad/s, sprite among the variants
        assert!(c.asteroid.rotation_speed >= 1_000 && c.asteroid.rotation_speed < 15_000);
        assert!(c.asteroid.velocity.x.abs() <= 700_000);
        assert!(c.asteroid.velocity.y.abs() <= 700_000);
        assert!(c.sprite_index < 3);
    }
    // the projectile was spent on the hit
    assert_eq!(w.projectiles.len(), 0);
}

#[test]
fn destroying_a_tier_3_asteroid_yields_two_tier_2_children() {
    let mut w = World::new(reference_bounds(), 3, 11);
    spawn_asteroid(&mut w, 3, 0, 0, Vec2 { x: 0, y: 0 }, Vec2 { x: 0, y: 0 }, 0);
    w.commit_structural_changes();
    w.asteroids[0].asteroid.hits = 1;
    w.projectiles.push(projectile_at(100, 0, 0));
    w.tick(&idle_input(), 16);
    assert_eq!(w.asteroids.len(), 2);
    for c in &w.asteroids {
        assert_eq!(c.asteroid.tier, 2);
        assert_eq!(c.asteroid.hits, 2);
    }
}

#[test]
fn destroying_a_tier_1_asteroid_yields_no_children() {
    let mut w = World::new(reference_bounds(), 3, 13);
    spawn_asteroid(&mut w, 1, 0, 0, Vec2 { x: 0, y: 0 }, Vec2 { x: 0, y: 0 }, 0);
    w.commit_structural_changes();
    w.projectiles.push(projectile_at(100, 0, 0));
    w.tick(&idle_input(), 16);
    assert_eq!(w.asteroids.len(), 0);
    assert_eq!(w.projectiles.len(), 0);
}

#[test]
fn asteroid_takes_one_hit_per_projectile_and_dies_exactly_at_zero() {
    let mut w = World::new(reference_bounds(), 3, 17);
    spawn_asteroid(&mut w, 2, 0, 0, Vec2 { x: 0, y: 0 }, Vec2 { x: 0, y: 0 }, 0);
    w.commit_structural_changes();
    assert_eq!(w.asteroids[0].asteroid.hits, 2);
    w.projectiles.push(projectile_at(100, 0, 0));
    w.tick(&idle_input(), 16);
    // first hit: damaged, not destroyed, projectile spent
    assert_eq!(w.asteroids.len(), 1);
    assert_eq!(w.asteroids[0].asteroid.hits, 1);
    assert_eq!(w.projectiles.len(), 0);
    // a tick with no projectiles leaves it alone
    w.tick(&idle_input(), 16);
    assert_eq!(w.asteroids[0].asteroid.hits, 1);
    // second hit: destroyed; a tier-2 parent leaves two tier-1 children
    w.projectiles.push(projectile_at(101, 0, 0));
    w.tick(&idle_input(), 16);
    assert_eq!(w.asteroids.len(), 2);
    for c in &w.asteroids {
        assert_eq!(c.asteroid.tier, 1);
    }
}

#[test]
fn fire_requests_through_the_world_respect_the_cooldown() {
    let mut w = World::new(reference_bounds(), 3, 19);
    w.spawn_player_ship();
    let mut firing = idle_input();
    firing.fire = true;
    // first request fires
    w.tick(&firing, 100);
    assert_eq!(w.projectiles.len(), 1);
    assert_eq!(w.projectiles[0].projectile.direction, Vec2 { x: 0, y: 1000 });
    // requests at 100 and 200 ms into the 300 ms cooldown are dropped
    w.tick(&firing, 100);
    w.tick(&firing, 100);
    assert_eq!(w.projectiles.len(), 1);
    // by 300 ms the cooldown has elapsed: the next request fires
    w.tick(&firing, 100);
    assert_eq!(w.projectiles.len(), 2);
}

#[test]
fn stale_fire_request_is_a_no_op() {
    let mut w = World::new(reference_bounds(), 3, 23);
    w.spawn_player_ship();
    let ev = asteroids_core::projectile::ShootProjectileEvent {
        spawn_position: Vec2 { x: 0, y: 0 },
        direction: Vec2 { x: 0, y: 1000 },
        shooter: 999,
    };
    w.shoot_projectile_event(&ev);
    assert_eq!(w.pending_projectiles.len(), 0);
}

#[test]
fn input_with_no_ship_is_skipped() {
    let mut w = World::new(reference_bounds(), 3, 29);
    let mut firing = idle_input();
    firing.fire = true;
    firing.forward = true;
    w.tick(&firing, 100);
    assert!(w.ship.is_none());
    assert_eq!(w.projectiles.len(), 0);
}

#[test]
fn thrust_relaxes_velocity_toward_top_speed() {
    let mut w = World::new(reference_bounds(), 3, 31);
    w.spawn_player_ship();
    let mut input = idle_input();
    input.forward = true;
    w.tick(&input, 100);
    let s = w.ship.as_ref().unwrap();
    // factor 8/s * 0.1s = 0.8: velocity goes 0 -> 4 units/s per axis
    assert_eq!(s.ship.velocity, Vec2 { x: 4_000, y: 4_000 });
    // movement along heading (0, 1): only y advances, by 0.4 units
    assert_eq!(s.transform.pos, Vec2 { x: 0, y: 400 });
    assert!(s.ship.moving);
    // idling applies friction 2/s * 0.1s = 0.2: velocity falls to 3.2
    w.tick(&idle_input(), 100);
    let s = w.ship.as_ref().unwrap();
    assert_eq!(s.ship.velocity, Vec2 { x: 3_200, y: 3_200 });
    assert!(!s.ship.moving);
}

#[test]
fn rotation_keys_turn_the_ship() {
    let mut w = World::new(reference_bounds(), 3, 37);
    w.spawn_player_ship();
    let mut input = idle_input();
    input.rotate_left = true;
    w.tick(&input, 100);
    // 2 rad/s for 0.1 s: 200 milli-radians
    assert_eq!(w.ship.as_ref().unwrap().transform.rot, 200);
    input.rotate_left = false;
    input.rotate_right = true;
    w.tick(&input, 100);
    assert_eq!(w.ship.as_ref().unwrap().transform.rot, 0);
    w.tick(&input, 100);
    // turning past zero wraps to the top of the circle
    assert_eq!(w.ship.as_ref().unwrap().transform.rot, 6_083);
}

#[test]
fn entity_at_the_bound_teleports_to_the_opposite_edge() {
    let mut w = World::new(reference_bounds(), 3, 41);
    let bx = w.bounds.x;
    spawn_asteroid(&mut w, 2, 0, 0, Vec2 { x: 0, y: 0 }, Vec2 { x: bx, y: 0 }, 0);
    w.commit_structural_changes();
    w.tick(&idle_input(), 16);
    assert_eq!(w.asteroids[0].transform.pos.x, -bx);
    assert_eq!(w.asteroids[0].transform.pos.y, 0);
}

#[test]
fn positions_stay_within_bounds_across_many_ticks() {
    let mut w = World::new(reference_bounds(), 3, 43);
    w.spawn_player_ship();
    w.populate_with_asteroids();
    let mut input = idle_input();
    input.forward = true;
    for _ in 0..200 {
        if w.ship.is_none() {
            break;
        }
        w.tick(&input, 50);
        for a in &w.asteroids {
            assert!(a.transform.pos.x.abs() <= w.bounds.x);
            assert!(a.transform.pos.y.abs() <= w.bounds.y);
        }
        if let Some(s) = &w.ship {
            assert!(s.transform.pos.x.abs() <= w.bounds.x);
            assert!(s.transform.pos.y.abs() <= w.bounds.y);
        }
    }
}

#[test]
fn ship_sprite_frame_follows_thrust() {
    assert_eq!(ship_animation_frame(true), 1);
    assert_eq!(ship_animation_frame(false), 0);
}

#[test]
fn seeded_worlds_split_reproducibly() {
    let run = || {
        let mut w = World::new(reference_bounds(), 3, 99);
        spawn_asteroid(&mut w, 5, 0, 0, Vec2 { x: 0, y: 0 }, Vec2 { x: 0, y: 0 }, 0);
        w.commit_structural_changes();
        w.asteroids[0].asteroid.hits = 1;
        w.projectiles.push(projectile_at(100, 0, 0));
        w.tick(&idle_input(), 16);
        w.asteroids
            .iter()
            .map(|a| (a.asteroid.velocity.x, a.asteroid.velocity.y, a.asteroid.rotation_speed))
            .collect::<Vec<_>>()
    };
    assert_eq!(run(), run());
}
