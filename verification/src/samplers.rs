//! Importance samplers: the closed set of direction-generation
//! strategies, each drawing an outgoing direction and pricing any
//! direction with a non-negative probability density.
//!
//! Every sampler here is deterministic: what it draws is a function of
//! the data it was built from, so repeated queries against one scene
//! are bit-identical and need no shared random state.

use vstd::prelude::*;
use crate::fixed::{lemma_tdiv_nonneg, mul_div_spec, sat64, sat_add64, scale_mul_div, SCALE};
use crate::objects::{object_center, RenderObject};
use crate::vec3::{vec3_is_zero, vec3_sub_spec, Vec3};

verus! {

/// Light-importance sampling: aims from an anchor point straight at a
/// chosen render object's reference point.
#[derive(Clone, Copy, Debug, PartialEq, Eq, Structural)]
pub struct RenderObjectSampler {
    pub anchor: Vec3,
    pub target: Vec3,
}

/// Reflectance-importance sampling for diffuse-like behavior about a
/// surface normal. Deterministic stand-in for a cosine-weighted draw:
/// it proposes the distribution's mode, the normal itself, and prices
/// a direction by its clamped projection on the normal.
#[derive(Clone, Copy, Debug, PartialEq, Eq, Structural)]
pub struct CosineSampler {
    pub normal: Vec3,
}

/// An even mixture of a light-aimed and a cosine strategy. Its density
/// averages the two arms, but generation follows the light arm alone:
/// the balance-weighted draw between the arms is a known limitation,
/// left unimplemented rather than guessed at.
#[derive(Clone, Copy, Debug, PartialEq, Eq, Structural)]
pub struct MixtureSampler {
    pub light: RenderObjectSampler,
    pub cosine: CosineSampler,
}

/// The closed set of importance-sampling strategies.
#[derive(Clone, Copy, Debug, PartialEq, Eq, Structural)]
pub enum Sampler {
    Light(RenderObjectSampler),
    Cosine(CosineSampler),
    Mixture(MixtureSampler),
}

/// The direction a light-aimed sampler draws: the displacement from
/// its anchor to its target.
pub open spec fn light_generate_spec(s: RenderObjectSampler) -> Vec3 {
    vec3_sub_spec(s.target, s.anchor)
}

/// The density a light-aimed sampler gives a direction: unit weight on
/// the one direction it draws, nothing elsewhere. The zero direction —
/// an anchor lying at the target — carries no density: it points
/// nowhere, and pricing it at zero lets the integrator drop the
/// degenerate sample instead of dividing by its weight.
pub open spec fn light_value_spec(s: RenderObjectSampler, direction: Vec3) -> int {
    if direction == light_generate_spec(s) && !vec3_is_zero(direction) {
        SCALE as int
    } else {
        0
    }
}

/// The fixed-point projection of one vector on another: the sum of the
/// componentwise scaled products.
pub open spec fn dot_spec(a: Vec3, b: Vec3) -> int {
    sat64(
        sat64(
            mul_div_spec(a.x as int, b.x as int, SCALE as int) + mul_div_spec(
                a.y as int,
                b.y as int,
                SCALE as int,
            ),
        ) + mul_div_spec(a.z as int, b.z as int, SCALE as int),
    )
}

/// The direction a cosine sampler draws: the normal, the mode of the
/// cosine-weighted hemisphere.
pub open spec fn cosine_generate_spec(s: CosineSampler) -> Vec3 {
    s.normal
}

/// The density a cosine sampler gives a direction: its projection on
/// the normal, clamped at zero so the lower hemisphere carries none.
pub open spec fn cosine_value_spec(s: CosineSampler, direction: Vec3) -> int {
    if dot_spec(direction, s.normal) < 0 {
        0
    } else {
        dot_spec(direction, s.normal)
    }
}

/// The direction a mixture draws: its light arm's draw.
pub open spec fn mixture_generate_spec(s: MixtureSampler) -> Vec3 {
    light_generate_spec(s.light)
}

/// The density a mixture gives a direction: the even average of its
/// two arms' densities.
pub open spec fn mixture_value_spec(s: MixtureSampler, direction: Vec3) -> int {
    mul_div_spec(
        sat64(light_value_spec(s.light, direction) + cosine_value_spec(s.cosine, direction)),
        1,
        2,
    )
}

/// The direction any sampler draws.
pub open spec fn sampler_generate_spec(s: Sampler) -> Vec3 {
    match s {
        Sampler::Light(ls) => light_generate_spec(ls),
        Sampler::Cosine(cs) => cosine_generate_spec(cs),
        Sampler::Mixture(ms) => mixture_generate_spec(ms),
    }
}

/// The density any sampler gives a direction.
pub open spec fn sampler_value_spec(s: Sampler, direction: Vec3) -> int {
    match s {
        Sampler::Light(ls) => light_value_spec(ls, direction),
        Sampler::Cosine(cs) => cosine_value_spec(cs, direction),
        Sampler::Mixture(ms) => mixture_value_spec(ms, direction),
    }
}

/// Every sampler prices every direction at a non-negative density.
pub proof fn lemma_sampler_value_nonneg(s: Sampler, direction: Vec3)
    ensures
        sampler_value_spec(s, direction) >= 0,
{
    match s {
        Sampler::Light(ls) => {
        },
        Sampler::Cosine(cs) => {
        },
        Sampler::Mixture(ms) => {
            let summed = sat64(
                light_value_spec(ms.light, direction) + cosine_value_spec(ms.cosine, direction),
            );
            lemma_tdiv_nonneg(summed * 1, 2);
        },
    }
}

impl RenderObjectSampler {
    /// Builds a light-importance sampler anchored at a shading point
    /// and aimed at a render object's reference point.
    pub fn new(position: Vec3, target: &RenderObject) -> (s: RenderObjectSampler)
        ensures
            s == (RenderObjectSampler { anchor: position, target: object_center(*target) }),
    {
        RenderObjectSampler { anchor: position, target: target.center() }
    }

    /// Draws this sampler's one direction.
    pub fn generate(&self) -> (d: Vec3)
        ensures
            d == light_generate_spec(*self),
    {
        self.target.sub_from(&self.anchor)
    }

    /// The density of a direction under this sampler.
    pub fn value(&self, direction: Vec3) -> (r: i64)
        ensures
            r as int == light_value_spec(*self, direction),
            r >= 0,
    {
        let drawn = self.generate();
        if direction == drawn && !direction.is_zero() {
            SCALE
        } else {
            0
        }
    }
}

impl CosineSampler {
    /// Builds a cosine sampler about a surface normal.
    pub fn new(normal: Vec3) -> (s: CosineSampler)
        ensures
            s == (CosineSampler { normal }),
    {
        CosineSampler { normal }
    }

    /// Draws this sampler's direction.
    pub fn generate(&self) -> (d: Vec3)
        ensures
            d == cosine_generate_spec(*self),
    {
        self.normal
    }

    /// The density of a direction under this sampler.
    pub fn value(&self, direction: Vec3) -> (r: i64)
        ensures
            r as int == cosine_value_spec(*self, direction),
            r >= 0,
    {
        let d = sat_add64(
            sat_add64(
                scale_mul_div(direction.x, self.normal.x, SCALE),
                scale_mul_div(direction.y, self.normal.y, SCALE),
            ),
            scale_mul_div(direction.z, self.normal.z, SCALE),
        );
        if d < 0 {
            0
        } else {
            d
        }
    }
}

impl MixtureSampler {
    /// Builds an even mixture of a light-aimed and a cosine strategy.
    pub fn new(light: RenderObjectSampler, cosine: CosineSampler) -> (s: MixtureSampler)
        ensures
            s == (MixtureSampler { light, cosine }),
    {
        MixtureSampler { light, cosine }
    }

    /// Draws a direction: the light arm's draw.
    pub fn generate(&self) -> (d: Vec3)
        ensures
            d == mixture_generate_spec(*self),
    {
        self.light.generate()
    }

    /// The density of a direction: the average of the two arms'.
    pub fn value(&self, direction: Vec3) -> (r: i64)
        ensures
            r as int == mixture_value_spec(*self, direction),
            r >= 0,
    {
        let summed = sat_add64(self.light.value(direction), self.cosine.value(direction));
        let r = scale_mul_div(summed, 1, 2);
        proof {
            lemma_tdiv_nonneg(summed * 1, 2);
        }
        r
    }
}

impl Sampler {
    /// Draws one direction from this sampler's distribution.
    pub fn generate(&self) -> (d: Vec3)
        ensures
            d == sampler_generate_spec(*self),
    {
        match self {
            Sampler::Light(ls) => ls.generate(),
            Sampler::Cosine(cs) => cs.generate(),
            Sampler::Mixture(ms) => ms.generate(),
        }
    }

    /// The probability density of a direction under this sampler's
    /// distribution: the Monte Carlo denominator, never negative.
    pub fn value(&self, direction: Vec3) -> (r: i64)
        ensures
            r as int == sampler_value_spec(*self, direction),
            r >= 0,
    {
        match self {
            Sampler::Light(ls) => ls.value(direction),
            Sampler::Cosine(cs) => cs.value(direction),
            Sampler::Mixture(ms) => ms.value(direction),
        }
    }
}

} // verus!
