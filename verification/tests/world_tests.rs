use asteroids_core::math::{div1000, norm_angle, Vec2};
use asteroids_core::world::{wrap, wrap_position, WorldBounds};

#[test]
fn wrap_inside_unchanged() {
    assert_eq!(wrap(5, -10, 10), 5);
    assert_eq!(wrap(-9, -10, 10), -9);
    assert_eq!(wrap(0, -10, 10), 0);
}

#[test]
fn wrap_at_upper_edge_teleports() {
    assert_eq!(wrap(10, -10, 10), -10);
}

#[test]
fn wrap_at_lower_edge_teleports() {
    assert_eq!(wrap(-10, -10, 10), 10);
}

#[test]
fn wrap_beyond_edges() {
    assert_eq!(wrap(15, -10, 10), -10);
    assert_eq!(wrap(-200, -10, 10), 10);
}

#[test]
fn wrap_result_always_within_bounds() {
    for v in [-30i64, -10, -3, 0, 3, 10, 30] {
        let r = wrap(v, -10, 10);
        assert!(-10 <= r && r <= 10);
    }
}

#[test]
fn bounds_from_viewport_formula() {
    // viewport / 1.75 == viewport * 4 / 7, truncating
    let b = WorldBounds::from_viewport(1_280_000, 720_000);
    assert_eq!(b.x, 731_428);
    assert_eq!(b.y, 411_428);
}

#[test]
fn wrap_position_wraps_each_axis_independently() {
    let b = WorldBounds { x: 100, y: 50 };
    let p = wrap_position(Vec2 { x: 100, y: 0 }, &b);
    assert_eq!(p.x, -100);
    assert_eq!(p.y, 0);
    let q = wrap_position(Vec2 { x: -7, y: -50 }, &b);
    assert_eq!(q.x, -7);
    assert_eq!(q.y, 50);
}

#[test]
fn div1000_truncates_toward_zero() {
    assert_eq!(div1000(1500), 1);
    assert_eq!(div1000(-1500), -1);
    assert_eq!(div1000(999), 0);
    assert_eq!(div1000(-999), 0);
    assert_eq!(div1000(2000), 2);
}

#[test]
fn norm_angle_reduces_to_one_turn() {
    assert_eq!(norm_angle(0), 0);
    assert_eq!(norm_angle(6283), 0);
    assert_eq!(norm_angle(6284), 1);
    assert_eq!(norm_angle(-1), 6282);
    assert_eq!(norm_angle(-6283), 0);
    assert_eq!(norm_angle(12566), 0);
}
