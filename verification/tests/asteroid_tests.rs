use asteroids_core::asteroid::{apply_damage, asteroid_movement, split_count, Asteroid};
use asteroids_core::math::{Transform, Vec2};

#[test]
fn split_counts_by_tier() {
    assert_eq!(split_count(7), 4);
    assert_eq!(split_count(6), 4);
    assert_eq!(split_count(5), 2);
    assert_eq!(split_count(3), 2);
    assert_eq!(split_count(2), 2);
    assert_eq!(split_count(1), 0);
}

fn asteroid(tier: u16, hits: u16) -> Asteroid {
    Asteroid { rotation_speed: 0, velocity: Vec2 { x: 0, y: 0 }, tier, hits }
}

#[test]
fn damage_decrements_hits_one_per_collision() {
    let mut a = asteroid(3, 3);
    let destroyed = apply_damage(&mut a, 1);
    assert!(!destroyed);
    assert_eq!(a.hits, 2);
}

#[test]
fn damage_clamps_at_zero_and_reports_destruction_once() {
    let mut a = asteroid(3, 2);
    let destroyed = apply_damage(&mut a, 5);
    assert!(destroyed);
    assert_eq!(a.hits, 0);
    // further damage neither underflows nor re-reports the destruction
    let destroyed_again = apply_damage(&mut a, 1);
    assert!(!destroyed_again);
    assert_eq!(a.hits, 0);
}

#[test]
fn damage_fires_destruction_exactly_when_hits_cross_to_zero() {
    let mut a = asteroid(2, 2);
    assert!(!apply_damage(&mut a, 1));
    assert_eq!(a.hits, 1);
    assert!(apply_damage(&mut a, 1));
    assert_eq!(a.hits, 0);
}

#[test]
fn hits_never_increase_across_ticks() {
    let mut a = asteroid(4, 4);
    let mut last = a.hits;
    for n in [0usize, 1, 0, 2, 0, 3] {
        apply_damage(&mut a, n);
        assert!(a.hits <= last);
        last = a.hits;
    }
}

#[test]
fn asteroid_drifts_by_velocity_and_spins() {
    let mut t = Transform { pos: Vec2 { x: 1_000, y: -2_000 }, rot: 100, scale: 4_000 };
    let a = Asteroid {
        rotation_speed: 7_000,
        velocity: Vec2 { x: -450_000, y: 350_000 },
        tier: 4,
        hits: 4,
    };
    asteroid_movement(&mut t, &a, 100);
    // 100 ms of drift: a tenth of the per-second velocity
    assert_eq!(t.pos.x, 1_000 - 45_000);
    assert_eq!(t.pos.y, -2_000 + 35_000);
    // 100 ms of spin at 7 rad/s: 700 milli-radians
    assert_eq!(t.rot, 800);
    assert_eq!(t.scale, 4_000);
}
