use asteroids_core::math::{Transform, Vec2};
use asteroids_core::projectile::{
    projectile_step, CooldownTimer, Projectile, ProjectileShooter,
};

fn transform_at(x: i64, y: i64) -> Transform {
    Transform { pos: Vec2 { x, y }, rot: 0, scale: 2_000 }
}

#[test]
fn projectile_range_decrements_by_speed_times_dt() {
    // 500 units/s over 16 ms covers 8 units
    let mut t = transform_at(0, 0);
    let mut p = Projectile { direction: Vec2 { x: 0, y: 1000 }, speed: 500_000, range: 50_000 };
    let burnt = projectile_step(&mut t, &mut p, 16);
    assert!(!burnt);
    assert_eq!(p.range, 42_000);
    assert_eq!(t.pos.y, 8_000);
    assert_eq!(t.pos.x, 0);
}

#[test]
fn projectile_with_range_50_speed_500_burns_out_after_a_tenth_of_a_second() {
    // range 50 units, speed 500 units/s: burns out at exactly 0.1 s of travel
    let mut t = transform_at(0, 0);
    let mut p = Projectile { direction: Vec2 { x: 1000, y: 0 }, speed: 500_000, range: 50_000 };
    let mut elapsed_ms = 0u32;
    let mut burnt = false;
    while !burnt {
        burnt = projectile_step(&mut t, &mut p, 25);
        elapsed_ms += 25;
        assert!(elapsed_ms <= 100);
    }
    assert_eq!(elapsed_ms, 100);
    assert_eq!(p.range, 0);
    assert_eq!(t.pos.x, 50_000);
}

#[test]
fn projectile_despawns_never_before_range_exhausted() {
    let mut t = transform_at(0, 0);
    let mut p = Projectile { direction: Vec2 { x: 1000, y: 0 }, speed: 100_000, range: 1_000 };
    // covers 100 milli-units per 1 ms tick; burns out on the 10th
    for step in 1..=10 {
        let burnt = projectile_step(&mut t, &mut p, 1);
        assert_eq!(burnt, step == 10);
        assert_eq!(p.range, 1_000 - 100 * step);
    }
}

#[test]
fn cooldown_timer_counts_down_and_saturates() {
    let mut timer = CooldownTimer::new(300);
    assert!(timer.remaining == 0);
    timer.remaining = 250;
    timer.tick(100);
    assert_eq!(timer.remaining, 150);
    timer.tick(100);
    assert_eq!(timer.remaining, 50);
    timer.tick(100);
    assert_eq!(timer.remaining, 0);
}

#[test]
fn fire_requests_within_cooldown_yield_one_shot() {
    let mut shooter = ProjectileShooter::new(500_000, 500_000, 300);
    assert!(shooter.fire_if_ready());
    // second request only 100 ms later: dropped
    shooter.attack_speed.tick(100);
    assert!(!shooter.fire_if_ready());
}

#[test]
fn fire_requests_beyond_cooldown_yield_two_shots() {
    let mut shooter = ProjectileShooter::new(500_000, 500_000, 300);
    assert!(shooter.fire_if_ready());
    // second request 301 ms later: honored
    shooter.attack_speed.tick(301);
    assert!(shooter.fire_if_ready());
}

#[test]
fn firing_resets_the_cooldown_to_its_period() {
    let mut shooter = ProjectileShooter::new(500_000, 500_000, 300);
    assert!(shooter.fire_if_ready());
    assert_eq!(shooter.attack_speed.remaining, 300);
    assert_eq!(shooter.attack_speed.period, 300);
}
