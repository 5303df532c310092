use vstd::prelude::*;

use crate::math::{mag, Vec2, MAX_MAG};

verus! {

/// Axis-aligned half-extents of an entity's bounding box, centered on the
/// owning entity's position.
#[derive(Clone, Copy, PartialEq, Eq, Structural, Debug)]
pub struct Collider {
    pub bounds: Vec2,
}

impl Collider {
    pub open spec fn wf(self) -> bool {
        0 <= self.bounds.x <= MAX_MAG && 0 <= self.bounds.y <= MAX_MAG
    }
}

/// Two boxes overlap iff on each axis the distance between the centers is
/// strictly below the sum of the half-extents: touching edges do not collide.
pub open spec fn aabb_overlap_spec(pa: Vec2, ca: Collider, pb: Vec2, cb: Collider) -> bool {
    mag(pa.x - pb.x) < ca.bounds.x + cb.bounds.x && mag(pa.y - pb.y) < ca.bounds.y + cb.bounds.y
}

/// Strict axis-aligned bounding-box overlap test.
pub fn aabb_overlap(pa: Vec2, ca: &Collider, pb: Vec2, cb: &Collider) -> (r: bool)
    requires
        pa.mag_within(MAX_MAG as int),
        pb.mag_within(MAX_MAG as int),
        ca.wf(),
        cb.wf(),
    ensures
        r == aabb_overlap_spec(pa, *ca, pb, *cb),
{
    let dx: i64 = if pa.x >= pb.x {
        pa.x - pb.x
    } else {
        pb.x - pa.x
    };
    let dy: i64 = if pa.y >= pb.y {
        pa.y - pb.y
    } else {
        pb.y - pa.y
    };
    dx < ca.bounds.x + cb.bounds.x && dy < ca.bounds.y + cb.bounds.y
}

} // verus!
