//! Exact integer 2D/3D vectors.
//!
//! The host engine works in floating-point world units; this model stores
//! every coordinate as a signed integer count of *thousandths* of a world
//! unit, so that sub-unit quantities (a unit-length facing direction, for
//! instance) are representable and all vector arithmetic is exact.

use vstd::prelude::*;

verus! {

/// How many stored coordinate ticks make one world unit.
pub const MILLIS_PER_UNIT: i64 = 1000;

/// A 2D vector (or size) in thousandths of a world unit.
#[derive(Clone, Copy, Debug, PartialEq, Eq)]
pub struct Vec2 {
    pub x: i64,
    pub y: i64,
}

/// A 3D vector (position or direction) in thousandths of a world unit.
#[derive(Clone, Copy, Debug, PartialEq, Eq)]
pub struct Vec3 {
    pub x: i64,
    pub y: i64,
    pub z: i64,
}

impl Vec2 {
    pub fn new(x: i64, y: i64) -> (v: Vec2)
        ensures
            v == (Vec2 { x, y }),
    {
        Vec2 { x, y }
    }
}

impl Vec3 {
    pub fn new(x: i64, y: i64, z: i64) -> (v: Vec3)
        ensures
            v == (Vec3 { x, y, z }),
    {
        Vec3 { x, y, z }
    }

    /// The origin.
    pub fn zero() -> (v: Vec3)
        ensures
            v == (Vec3 { x: 0, y: 0, z: 0 }),
    {
        Vec3 { x: 0, y: 0, z: 0 }
    }
}

/// Componentwise sum of two 3D vectors stays within the machine range.
pub open spec fn vec3_sum_fits(a: Vec3, b: Vec3) -> bool {
    &&& i64::MIN <= a.x + b.x <= i64::MAX
    &&& i64::MIN <= a.y + b.y <= i64::MAX
    &&& i64::MIN <= a.z + b.z <= i64::MAX
}

/// Componentwise sum of two 3D vectors.
pub fn vec3_add(a: Vec3, b: Vec3) -> (r: Vec3)
    requires
        vec3_sum_fits(a, b),
    ensures
        r.x == a.x + b.x,
        r.y == a.y + b.y,
        r.z == a.z + b.z,
{
    Vec3 { x: a.x + b.x, y: a.y + b.y, z: a.z + b.z }
}

} // verus!
