//! Three-component fixed-point vectors for points, directions and
//! surface normals.

use vstd::prelude::*;
use crate::fixed::{sat64, sat_sub64};

verus! {

/// A 3D point or direction, each coordinate a fixed-point scalar.
#[derive(Clone, Copy, Debug, PartialEq, Eq, Structural)]
pub struct Vec3 {
    pub x: i64,
    pub y: i64,
    pub z: i64,
}

/// The componentwise saturating difference `a - b`: the displacement
/// that leads from `b` to `a`.
pub open spec fn vec3_sub_spec(a: Vec3, b: Vec3) -> Vec3 {
    Vec3 { x: sat64(a.x - b.x) as i64, y: sat64(a.y - b.y) as i64, z: sat64(a.z - b.z) as i64 }
}

/// Whether every component is zero: such a displacement points nowhere.
pub open spec fn vec3_is_zero(v: Vec3) -> bool {
    v.x == 0 && v.y == 0 && v.z == 0
}

impl Vec3 {
    /// Builds a vector from its three coordinates.
    pub fn new(x: i64, y: i64, z: i64) -> (v: Vec3)
        ensures
            v == (Vec3 { x, y, z }),
    {
        Vec3 { x, y, z }
    }

    /// The saturating componentwise difference `self - other`.
    pub fn sub_from(&self, other: &Vec3) -> (r: Vec3)
        ensures
            r == vec3_sub_spec(*self, *other),
    {
        Vec3 {
            x: sat_sub64(self.x, other.x),
            y: sat_sub64(self.y, other.y),
            z: sat_sub64(self.z, other.z),
        }
    }

    /// Whether every component is zero.
    pub fn is_zero(&self) -> (r: bool)
        ensures
            r == vec3_is_zero(*self),
    {
        self.x == 0 && self.y == 0 && self.z == 0
    }
}

} // verus!
