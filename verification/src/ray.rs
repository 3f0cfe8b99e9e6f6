//! Rays: an origin point and a direction vector.

use vstd::prelude::*;
use crate::vec3::Vec3;

verus! {

/// A half-line through the scene: every point `origin + t * direction`
/// for a hit parameter `t >= 0`. The direction need not be normalized
/// by callers of the public entry point.
#[derive(Clone, Copy, Debug, PartialEq, Eq, Structural)]
pub struct Ray {
    pub origin: Vec3,
    pub direction: Vec3,
}

} // verus!
