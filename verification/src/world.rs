use vstd::prelude::*;

use crate::math::{mag, Vec2, MAX_MAG};

verus! {

/// Marks an entity as subject to toroidal edge teleportation at the world
/// bounds.
#[derive(Clone, Copy, PartialEq, Eq, Structural, Debug)]
pub struct WrapAround;

/// Half-size of the playfield on each axis, in milli-units. A wrap-eligible
/// entity lives inside `[-x, x] x [-y, y]`.
#[derive(Clone, Copy, PartialEq, Eq, Structural, Debug)]
pub struct WorldBounds {
    pub x: i64,
    pub y: i64,
}

impl WorldBounds {
    pub open spec fn wf(self) -> bool {
        0 < self.x <= MAX_MAG && 0 < self.y <= MAX_MAG
    }

    /// The playfield is the viewport shrunk by the factor 7/4 on each axis
    /// (the reference configuration's 1.75), truncating.
    pub fn from_viewport(viewport_x: i64, viewport_y: i64) -> (r: WorldBounds)
        requires
            0 < viewport_x <= MAX_MAG,
            0 < viewport_y <= MAX_MAG,
            viewport_x * 4 / 7 > 0,
            viewport_y * 4 / 7 > 0,
        ensures
            r.x == viewport_x * 4 / 7,
            r.y == viewport_y * 4 / 7,
            r.wf(),
    {
        WorldBounds { x: viewport_x * 4 / 7, y: viewport_y * 4 / 7 }
    }

    pub open spec fn contains(self, p: Vec2) -> bool {
        -self.x <= p.x <= self.x && -self.y <= p.y <= self.y
    }
}

/// Edge-triggered toroidal wrap of one axis coordinate: a coordinate at or
/// past an edge teleports to the opposite edge; anything strictly inside is
/// unchanged.
pub open spec fn wrap_spec(value: int, min: int, max: int) -> int {
    if value <= min {
        max
    } else if value >= max {
        min
    } else {
        value
    }
}

pub fn wrap(value: i64, min: i64, max: i64) -> (r: i64)
    requires
        min <= max,
    ensures
        r == wrap_spec(value as int, min as int, max as int),
        min <= r <= max,
{
    if value <= min {
        max
    } else if value >= max {
        min
    } else {
        value
    }
}

/// After wrapping, every coordinate lies within `[min, max]` inclusive, and a
/// coordinate exactly at one edge has teleported to the other.
pub proof fn lemma_wrap_within(value: int, min: int, max: int)
    requires
        min <= max,
    ensures
        min <= wrap_spec(value, min, max) <= max,
        value == max ==> wrap_spec(value, min, max) == min,
        value == min ==> wrap_spec(value, min, max) == max,
        min < value < max ==> wrap_spec(value, min, max) == value,
{
}

/// Both axes of a position wrapped against the world bounds.
pub open spec fn wrap_position_spec(p: Vec2, b: WorldBounds) -> Vec2 {
    Vec2 {
        x: wrap_spec(p.x as int, -b.x as int, b.x as int) as i64,
        y: wrap_spec(p.y as int, -b.y as int, b.y as int) as i64,
    }
}

pub fn wrap_position(p: Vec2, b: &WorldBounds) -> (r: Vec2)
    requires
        b.wf(),
    ensures
        r == wrap_position_spec(p, *b),
        b.contains(r),
{
    Vec2 { x: wrap(p.x, -b.x, b.x), y: wrap(p.y, -b.y, b.y) }
}

/// A position inside the bounds has small coordinates.
pub proof fn lemma_contained_mag(p: Vec2, b: WorldBounds)
    requires
        b.wf(),
        b.contains(p),
    ensures
        p.mag_within(MAX_MAG as int),
{
    assert(mag(p.x as int) <= b.x as int);
    assert(mag(p.y as int) <= b.y as int);
}

} // verus!
