//! The hit record handed from geometry to the integrator and on to the
//! materials.

use vstd::prelude::*;
use crate::vec3::Vec3;

verus! {

/// Produced once per successful intersection test: where the ray struck,
/// the surface normal there, which material answers for the surface,
/// and how far along the ray the hit lies. The distance is used only
/// for nearest-hit comparison; geometry rejects hits behind the ray
/// origin before building a payload, so it is never negative.
#[derive(Clone, Copy, Debug, PartialEq, Eq, Structural)]
pub struct IntersectionPayload {
    pub position: Vec3,
    pub normal: Vec3,
    pub material_id: usize,
    pub distance: i64,
}

} // verus!
