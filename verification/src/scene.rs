//! The scene and its integrator: nearest-hit search over the object
//! list and the depth-bounded recursive Monte Carlo estimator of the
//! rendering equation.

use vstd::prelude::*;
use crate::color::{black, color_add_spec, color_div_spec, color_mul_spec, Color};
use crate::fixed::SCALE;
use crate::intersection::IntersectionPayload;
use crate::materials::{material_emission, material_transmission, Material};
use crate::objects::{
    lemma_bound_conservative, lemma_hit_well_formed, object_center, object_hit,
    object_material_id, RenderObject,
};
use crate::ray::Ray;
use crate::samplers::{light_generate_spec, light_value_spec, RenderObjectSampler};
use crate::vec3::Vec3;

verus! {

/// A scene: the object list searched for hits, the material table hits
/// index into, the light list importance sampling aims at, the color
/// returned on a miss, and the bounce bound of the recursive
/// estimator. Immutable once constructed; every query is read-only.
pub struct Scene {
    pub render_objects: Vec<RenderObject>,
    pub materials: Vec<Material>,
    pub lights: Vec<RenderObject>,
    pub background_color: Color,
    pub max_depth: usize,
}

/// Keeps the nearer of a retained hit and a candidate: the candidate
/// replaces the record only on a strictly smaller distance, so on ties
/// the earlier-registered object's payload survives.
pub open spec fn closer_payload(
    prev: Option<IntersectionPayload>,
    cur: Option<IntersectionPayload>,
) -> Option<IntersectionPayload> {
    match cur {
        None => prev,
        Some(p) => match prev {
            None => Some(p),
            Some(q) => if p.distance < q.distance {
                Some(p)
            } else {
                Some(q)
            },
        },
    }
}

/// The nearest hit among the first `n` objects, in registration order.
pub open spec fn nearest_hit_prefix(
    objects: Seq<RenderObject>,
    ray: Ray,
    n: int,
) -> Option<IntersectionPayload>
    decreases n,
{
    if n <= 0 {
        None
    } else {
        closer_payload(nearest_hit_prefix(objects, ray, n - 1), object_hit(objects[n - 1], ray))
    }
}

/// The nearest hit of a ray against a whole object list, or nothing
/// when every object misses.
pub open spec fn spec_nearest(objects: Seq<RenderObject>, ray: Ray) -> Option<
    IntersectionPayload,
> {
    nearest_hit_prefix(objects, ray, objects.len() as int)
}

/// The light-importance sampler the integrator anchors at a hit point:
/// aimed at the first registered light. Selecting among several lights
/// is outside this core.
pub open spec fn scene_sampler(scene: Scene, position: Vec3) -> RenderObjectSampler {
    RenderObjectSampler { anchor: position, target: object_center(scene.lights@[0]) }
}

/// The radiance estimate along a ray at a given bounce count: black
/// past the depth bound; the background on a miss; otherwise emission
/// plus the transmission-weighted recursive estimate along a sampled
/// outgoing direction, divided by that direction's density — or
/// emission alone when the density is zero, so no division by zero is
/// ever taken.
pub open spec fn spec_trace(scene: Scene, ray: Ray, depth: int) -> Color
    decreases scene.max_depth + 1 - depth,
{
    if depth > scene.max_depth {
        black()
    } else {
        match spec_nearest(scene.render_objects@, ray) {
            None => scene.background_color,
            Some(payload) => {
                let m = scene.materials@[payload.material_id as int];
                let light_emitted = material_emission(m, payload);
                let sampler = scene_sampler(scene, payload.position);
                let outgoing_direction = light_generate_spec(sampler);
                let outgoing_ray = Ray { origin: payload.position, direction: outgoing_direction };
                let pdf_value = light_value_spec(sampler, outgoing_direction);
                let light_sampled = spec_trace(scene, outgoing_ray, depth + 1);
                let light_transmitted = material_transmission(
                    m,
                    payload,
                    ray.direction,
                    outgoing_direction,
                );
                if pdf_value != 0 {
                    color_add_spec(
                        light_emitted,
                        color_div_spec(color_mul_spec(light_transmitted, light_sampled), pdf_value),
                    )
                } else {
                    light_emitted
                }
            },
        }
    }
}

/// Any payload the nearest-hit search returns came from one of the
/// searched objects.
proof fn lemma_nearest_from_object(objects: Seq<RenderObject>, ray: Ray, n: int)
    requires
        0 <= n <= objects.len(),
    ensures
        match nearest_hit_prefix(objects, ray, n) {
            Some(r) => exists|i: int|
                0 <= i < n && #[trigger] object_hit(objects[i], ray) == Some(r),
            None => true,
        },
    decreases n,
{
    if n > 0 {
        lemma_nearest_from_object(objects, ray, n - 1);
        let prev = nearest_hit_prefix(objects, ray, n - 1);
        let cur = object_hit(objects[n - 1], ray);
        match nearest_hit_prefix(objects, ray, n) {
            Some(r) => {
                if cur == Some(r) {
                    assert(object_hit(objects[n - 1], ray) == Some(r));
                } else {
                    assert(prev == Some(r));
                }
            },
            None => {},
        }
    }
}

/// In a well-formed scene, the payload the search returns indexes the
/// material table and lies at a non-negative distance.
proof fn lemma_scene_payload_valid(scene: Scene, ray: Ray)
    requires
        scene.wf(),
    ensures
        match spec_nearest(scene.render_objects@, ray) {
            Some(r) => r.material_id < scene.materials@.len() && r.distance >= 0,
            None => true,
        },
{
    let objects = scene.render_objects@;
    lemma_nearest_from_object(objects, ray, objects.len() as int);
    match spec_nearest(objects, ray) {
        Some(r) => {
            let i = choose|i: int|
                0 <= i < objects.len() && #[trigger] object_hit(objects[i], ray) == Some(r);
            lemma_hit_well_formed(objects[i], ray);
        },
        None => {},
    }
}

impl Scene {
    /// Well-formedness: the light list is non-empty (the integrator
    /// aims at its first entry), every object's material id indexes
    /// the material table, and one more bounce past the depth bound
    /// can still be counted.
    pub open spec fn wf(self) -> bool {
        &&& self.lights@.len() > 0
        &&& self.max_depth < usize::MAX
        &&& forall|i: int|
            0 <= i < self.render_objects@.len() ==> (#[trigger] object_material_id(
                self.render_objects@[i],
            )) < self.materials@.len()
    }

    /// Builds a scene, taking ownership of its components. The caller
    /// answers for well-formedness: material ids must index the table
    /// and the light list must not be empty.
    pub fn new(
        render_objects: Vec<RenderObject>,
        materials: Vec<Material>,
        lights: Vec<RenderObject>,
        background_color: Color,
        max_depth: usize,
    ) -> (s: Scene)
        ensures
            s.render_objects@ == render_objects@,
            s.materials@ == materials@,
            s.lights@ == lights@,
            s.background_color == background_color,
            s.max_depth == max_depth,
    {
        Scene { render_objects, materials, lights, background_color, max_depth }
    }

    /// The color seen along a ray: the sole query. A pure, reentrant
    /// read of the scene — the result is a function of the scene and
    /// the ray alone, so repeated calls agree and concurrent calls
    /// with distinct rays are safe.
    pub fn get_color(&self, ray: Ray) -> (c: Color)
        requires
            self.wf(),
        ensures
            c == spec_trace(*self, ray, 0),
    {
        self.trace(ray, 0)
    }

    /// The recursive estimator at a given bounce count.
    pub fn trace(&self, ray: Ray, depth: usize) -> (c: Color)
        requires
            self.wf(),
        ensures
            c == spec_trace(*self, ray, depth as int),
        decreases self.max_depth + 1 - depth,
    {
        if depth > self.max_depth {
            return Color(0, 0, 0, SCALE);
        }
        let payload_option = self.get_intersect(&ray);
        match payload_option {
            None => self.background_color,
            Some(payload) => {
                proof {
                    lemma_scene_payload_valid(*self, ray);
                }
                let material = &self.materials[payload.material_id];
                let light_emitted = material.emission(&payload);

                // The mixture of light-aimed and cosine sampling stays
                // disengaged: the light-aimed strategy alone drives the
                // estimator, a documented simplification.
                let mix_pdf = RenderObjectSampler::new(payload.position, &self.lights[0]);

                let outgoing_direction = mix_pdf.generate();
                let outgoing_ray = Ray { origin: payload.position, direction: outgoing_direction };
                let pdf_value = mix_pdf.value(outgoing_direction);

                let light_sampled = self.trace(outgoing_ray, depth + 1);
                let light_transmitted = material.transmission(
                    &payload,
                    ray.direction,
                    outgoing_direction,
                );

                if pdf_value != 0 {
                    light_emitted.plus(&light_transmitted.times(&light_sampled).divided_by(
                        pdf_value,
                    ))
                } else {
                    light_emitted
                }
            },
        }
    }

    /// Nearest-hit search over the whole object list: each object's
    /// bound pre-filters the full intersection test, and the retained
    /// payload is replaced only on a strictly smaller distance.
    pub fn get_intersect(&self, ray: &Ray) -> (r: Option<IntersectionPayload>)
        ensures
            r == spec_nearest(self.render_objects@, *ray),
    {
        let mut record_payload: Option<IntersectionPayload> = None;
        let n = self.render_objects.len();
        let mut i: usize = 0;
        while i < n
            invariant
                n == self.render_objects@.len(),
                i <= n,
                record_payload == nearest_hit_prefix(self.render_objects@, *ray, i as int),
            decreases n - i,
        {
            let object = &self.render_objects[i];
            let bounds = object.bounds();
            if bounds.intersect(ray) {
                match object.intersect(ray) {
                    None => {},
                    Some(payload) => {
                        record_payload = match record_payload {
                            None => Some(payload),
                            Some(record) => if payload.distance < record.distance {
                                Some(payload)
                            } else {
                                Some(record)
                            },
                        };
                    },
                }
            } else {
                proof {
                    lemma_bound_conservative(self.render_objects@[i as int], *ray);
                }
            }
            i = i + 1;
        }
        record_payload
    }

}

} // verus!
