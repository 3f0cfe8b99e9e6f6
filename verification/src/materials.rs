//! Materials: the closed set of surface-response models, each answering
//! emission, transmitted radiance for a direction pair, and a scalar
//! reflectance density.
//!
//! Direction generation is owned by the samplers, not the materials:
//! the integrator delegates outgoing-direction choice entirely to an
//! importance sampler, so the materials keep a single source of truth
//! for their response and none for direction drawing.

use vstd::prelude::*;
use crate::color::Color;
use crate::fixed::SCALE;
use crate::intersection::IntersectionPayload;
use crate::vec3::Vec3;

verus! {

/// A glossy mirror: `reflectance` in `[0, SCALE]` measures roughness,
/// 0 a perfect mirror. It emits nothing, passes radiance through with
/// full colorless weight, and reports a constant unit reflectance
/// density.
#[derive(Clone, Copy, Debug, PartialEq, Eq, Structural)]
pub struct ReflectiveMaterial {
    pub reflectance: i64,
}

/// The closed set of surface-response models a scene may hold.
#[derive(Clone, Copy, Debug, PartialEq, Eq, Structural)]
pub enum Material {
    Reflective(ReflectiveMaterial),
}

/// The radiance a material emits at a hit: black for every reflective
/// surface.
pub open spec fn material_emission(m: Material, payload: IntersectionPayload) -> Color {
    match m {
        Material::Reflective(_) => Color(0, 0, 0, SCALE),
    }
}

/// The response weight a material relates to an incoming and outgoing
/// direction pair: full white for a reflective surface, which passes
/// transport weight through undimmed.
pub open spec fn material_transmission(
    m: Material,
    payload: IntersectionPayload,
    incoming: Vec3,
    outgoing: Vec3,
) -> Color {
    match m {
        Material::Reflective(_) => Color(SCALE, SCALE, SCALE, SCALE),
    }
}

/// The scalar reflectance density a material reports for a direction
/// pair about a normal: the constant 1.0 for a reflective surface. The
/// integrator does not consume this value; it completes the material
/// contract.
pub open spec fn material_brdf(m: Material, normal: Vec3, incoming: Vec3, outgoing: Vec3) -> int {
    match m {
        Material::Reflective(_) => SCALE as int,
    }
}

impl ReflectiveMaterial {
    /// Builds a reflective material of the given roughness.
    pub fn new(reflectance: i64) -> (m: Material)
        ensures
            m == Material::Reflective(ReflectiveMaterial { reflectance }),
    {
        Material::Reflective(ReflectiveMaterial { reflectance })
    }
}

impl Material {
    /// The self-emitted radiance at the hit point.
    pub fn emission(&self, payload: &IntersectionPayload) -> (c: Color)
        ensures
            c == material_emission(*self, *payload),
    {
        match self {
            Material::Reflective(_) => Color(0, 0, 0, SCALE),
        }
    }

    /// The response weight relating the incoming and outgoing
    /// directions at the hit point.
    pub fn transmission(
        &self,
        payload: &IntersectionPayload,
        incoming: Vec3,
        outgoing: Vec3,
    ) -> (c: Color)
        ensures
            c == material_transmission(*self, *payload, incoming, outgoing),
    {
        match self {
            Material::Reflective(_) => Color(SCALE, SCALE, SCALE, SCALE),
        }
    }

    /// The scalar reflectance density for the direction pair.
    pub fn brdf(&self, normal: Vec3, incoming: Vec3, outgoing: Vec3) -> (r: i64)
        ensures
            r as int == material_brdf(*self, normal, incoming, outgoing),
    {
        match self {
            Material::Reflective(_) => SCALE,
        }
    }
}

} // verus!
