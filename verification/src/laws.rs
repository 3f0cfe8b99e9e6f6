//! The stated guarantees of the integrator, each proved against the
//! specification functions that the executable contracts use.

use vstd::prelude::*;
use crate::color::black;
use crate::intersection::IntersectionPayload;
use crate::materials::material_emission;
use crate::objects::{
    bound_hits, lemma_bound_conservative, object_bounds, object_hit, RenderObject,
};
use crate::ray::Ray;
use crate::samplers::{light_generate_spec, light_value_spec};
use crate::scene::{nearest_hit_prefix, scene_sampler, spec_nearest, spec_trace, Scene};

verus! {

/// A ray that strikes nothing is answered with exactly the scene's
/// configured background color, at any bounce count within the depth
/// bound.
pub proof fn lemma_background_fallback(scene: Scene, ray: Ray, depth: int)
    requires
        0 <= depth <= scene.max_depth,
        spec_nearest(scene.render_objects@, ray) is None,
    ensures
        spec_trace(scene, ray, depth) == scene.background_color,
{
}

/// Past the depth bound the estimator truncates transport to black.
pub proof fn lemma_depth_exhausted(scene: Scene, ray: Ray, depth: int)
    requires
        depth > scene.max_depth,
    ensures
        spec_trace(scene, ray, depth) == black(),
{
}

/// With a depth bound of zero, a ray that does hit returns color
/// channels equal to the struck material's emission channels: the
/// recursive term at the next bounce resolves to black, and the
/// density-weighted black contributes nothing to red, green or blue.
pub proof fn lemma_depth_cutoff(scene: Scene, ray: Ray, payload: IntersectionPayload)
    requires
        scene.max_depth == 0,
        spec_nearest(scene.render_objects@, ray) == Some(payload),
    ensures
        ({
            let m = scene.materials@[payload.material_id as int];
            let c = spec_trace(scene, ray, 0);
            c.0 == material_emission(m, payload).0 && c.1 == material_emission(m, payload).1
                && c.2 == material_emission(m, payload).2
        }),
{
    reveal_with_fuel(spec_trace, 2);
}

/// When the sampler prices its own drawn direction at zero density,
/// the estimator takes no division by that density and returns exactly
/// the material's emission.
pub proof fn lemma_zero_density(scene: Scene, ray: Ray, depth: int, payload: IntersectionPayload)
    requires
        0 <= depth <= scene.max_depth,
        spec_nearest(scene.render_objects@, ray) == Some(payload),
        light_value_spec(
            scene_sampler(scene, payload.position),
            light_generate_spec(scene_sampler(scene, payload.position)),
        ) == 0,
    ensures
        spec_trace(scene, ray, depth) == material_emission(
            scene.materials@[payload.material_id as int],
            payload,
        ),
{
}

/// Witness shape for the nearest-hit search: the payload came from
/// object `i`, and every earlier-registered object either misses or
/// hits strictly farther — so on ties the earliest registration wins.
pub open spec fn first_nearest_within(
    objects: Seq<RenderObject>,
    ray: Ray,
    n: int,
    i: int,
    r: IntersectionPayload,
) -> bool {
    &&& 0 <= i < n
    &&& object_hit(objects[i], ray) == Some(r)
    &&& forall|j: int|
        0 <= j < i ==> (match #[trigger] object_hit(objects[j], ray) {
            Some(q) => q.distance > r.distance,
            None => true,
        })
}

proof fn lemma_nearest_minimal_prefix(objects: Seq<RenderObject>, ray: Ray, n: int)
    requires
        0 <= n <= objects.len(),
    ensures
        match nearest_hit_prefix(objects, ray, n) {
            None => forall|j: int|
                0 <= j < n ==> (#[trigger] object_hit(objects[j], ray)) is None,
            Some(r) => (exists|i: int| #[trigger] first_nearest_within(objects, ray, n, i, r)) && forall|
                j: int,
            |
                0 <= j < n ==> (match #[trigger] object_hit(objects[j], ray) {
                    Some(q) => q.distance >= r.distance,
                    None => true,
                }),
        },
    decreases n,
{
    if n > 0 {
        lemma_nearest_minimal_prefix(objects, ray, n - 1);
        let prev = nearest_hit_prefix(objects, ray, n - 1);
        let cur = object_hit(objects[n - 1], ray);
        match nearest_hit_prefix(objects, ray, n) {
            None => {},
            Some(r) => {
                match cur {
                    None => {
                        let i = choose|i: int| #[trigger] first_nearest_within(objects, ray, n - 1, i, r);
                        assert(first_nearest_within(objects, ray, n, i, r));
                    },
                    Some(p) => {
                        match prev {
                            None => {
                                assert(first_nearest_within(objects, ray, n, n - 1, r));
                            },
                            Some(q) => {
                                if p.distance < q.distance {
                                    assert(first_nearest_within(objects, ray, n, n - 1, r));
                                } else {
                                    let i = choose|i: int|
                                        #[trigger] first_nearest_within(objects, ray, n - 1, i, r);
                                    assert(first_nearest_within(objects, ray, n, i, r));
                                }
                            },
                        }
                    },
                }
            },
        }
    }
}

/// Nearest-hit correctness: when the search returns nothing, every
/// object misses; when it returns a payload, no object hits nearer,
/// and the payload is the hit of the first-registered object among
/// those at the minimal distance.
pub proof fn lemma_nearest_hit_minimal(objects: Seq<RenderObject>, ray: Ray)
    ensures
        match spec_nearest(objects, ray) {
            None => forall|j: int|
                0 <= j < objects.len() ==> (#[trigger] object_hit(objects[j], ray)) is None,
            Some(r) => (exists|i: int|
                #[trigger] first_nearest_within(objects, ray, objects.len() as int, i, r)) && forall|j: int|
                0 <= j < objects.len() ==> (match #[trigger] object_hit(objects[j], ray) {
                    Some(q) => q.distance >= r.distance,
                    None => true,
                }),
        },
{
    lemma_nearest_minimal_prefix(objects, ray, objects.len() as int);
}

proof fn lemma_prefix_congruence(s1: Seq<RenderObject>, s2: Seq<RenderObject>, ray: Ray, n: int)
    requires
        0 <= n <= s1.len(),
        n <= s2.len(),
        forall|j: int| 0 <= j < n ==> s1[j] == s2[j],
    ensures
        nearest_hit_prefix(s1, ray, n) == nearest_hit_prefix(s2, ray, n),
    decreases n,
{
    if n > 0 {
        lemma_prefix_congruence(s1, s2, ray, n - 1);
    }
}

proof fn lemma_removal_shift(objects: Seq<RenderObject>, ray: Ray, k: int, m: int)
    requires
        0 <= k <= m <= objects.len() - 1,
        object_hit(objects[k], ray) is None,
    ensures
        nearest_hit_prefix(objects.remove(k), ray, m) == nearest_hit_prefix(objects, ray, m + 1),
    decreases m - k,
{
    objects.remove_ensures(k);
    if m == k {
        lemma_prefix_congruence(objects.remove(k), objects, ray, k);
    } else {
        lemma_removal_shift(objects, ray, k, m - 1);
        assert(objects.remove(k)[m - 1] == objects[m]);
    }
}

/// Removing an object that misses the ray leaves the nearest-hit
/// search's answer unchanged.
pub proof fn lemma_missed_object_removal(objects: Seq<RenderObject>, ray: Ray, k: int)
    requires
        0 <= k < objects.len(),
        object_hit(objects[k], ray) is None,
    ensures
        spec_nearest(objects.remove(k), ray) == spec_nearest(objects, ray),
{
    objects.remove_ensures(k);
    lemma_removal_shift(objects, ray, k, objects.len() - 1);
}

/// Bounding pre-filter equivalence at the search: an object whose
/// bound rejects the ray contributes nothing, so the nearest-hit
/// answer is the same whether or not that object is in the list.
pub proof fn lemma_prefilter_equivalence(objects: Seq<RenderObject>, ray: Ray, k: int)
    requires
        0 <= k < objects.len(),
        !bound_hits(object_bounds(objects[k]), ray),
    ensures
        spec_nearest(objects.remove(k), ray) == spec_nearest(objects, ray),
{
    lemma_bound_conservative(objects[k], ray);
    lemma_missed_object_removal(objects, ray, k);
}

/// Bounding pre-filter equivalence at the query: an object that
/// misses every ray — for instance one whose bound rejects them all —
/// can be removed from a scene without changing any color the
/// integrator returns, at any bounce count.
pub proof fn lemma_absent_object_color(
    scene_with: Scene,
    scene_without: Scene,
    ray: Ray,
    k: int,
    depth: int,
)
    requires
        0 <= k < scene_with.render_objects@.len(),
        scene_without.render_objects@ == scene_with.render_objects@.remove(k),
        scene_without.materials@ == scene_with.materials@,
        scene_without.lights@ == scene_with.lights@,
        scene_without.background_color == scene_with.background_color,
        scene_without.max_depth == scene_with.max_depth,
        forall|r: Ray| (#[trigger] object_hit(scene_with.render_objects@[k], r)) is None,
    ensures
        spec_trace(scene_with, ray, depth) == spec_trace(scene_without, ray, depth),
    decreases scene_with.max_depth + 1 - depth,
{
    if depth > scene_with.max_depth {
    } else {
        lemma_missed_object_removal(scene_with.render_objects@, ray, k);
        match spec_nearest(scene_with.render_objects@, ray) {
            None => {},
            Some(payload) => {
                let sampler = scene_sampler(scene_with, payload.position);
                let outgoing_ray = Ray {
                    origin: payload.position,
                    direction: light_generate_spec(sampler),
                };
                lemma_absent_object_color(scene_with, scene_without, outgoing_ray, k, depth + 1);
            },
        }
    }
}

} // verus!
