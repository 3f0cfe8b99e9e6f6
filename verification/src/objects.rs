//! Render objects: the closed set of geometric primitives, each
//! answering a conservative bounding test and an exact intersection
//! test.
//!
//! The one concrete shape is an axis-aligned rectangular panel lying in
//! a plane of constant `z`. Its intersection math is exact fixed-point
//! arithmetic: the hit parameter is the scaled quotient of the plane
//! offset by the direction's `z` component, truncated toward zero.

use vstd::prelude::*;
use crate::fixed::{lemma_tdiv_nonneg, mul_div_spec, sat64, sat_add64, sat_sub64, scale_mul_div, SCALE};
use crate::intersection::IntersectionPayload;
use crate::ray::Ray;
use crate::vec3::Vec3;

verus! {

/// A conservative bounding region: the carrier plane `z = plane_z` of a
/// panel. Its overlap test asks whether the ray makes any forward
/// progress toward that plane; a ray that cannot reach the plane cannot
/// strike anything lying in it.
#[derive(Clone, Copy, Debug, PartialEq, Eq, Structural)]
pub struct BoundingVolume {
    pub plane_z: i64,
}

/// An axis-aligned rectangle in the plane `z = plane_z`, spanning
/// `[min_x, max_x] x [min_y, max_y]`, shaded by the material at
/// `material_id` in the scene's material table.
#[derive(Clone, Copy, Debug, PartialEq, Eq, Structural)]
pub struct Panel {
    pub plane_z: i64,
    pub min_x: i64,
    pub max_x: i64,
    pub min_y: i64,
    pub max_y: i64,
    pub material_id: usize,
}

/// The closed set of geometric primitives a scene may hold.
#[derive(Clone, Copy, Debug, PartialEq, Eq, Structural)]
pub enum RenderObject {
    Panel(Panel),
}

/// Whether the ray makes forward progress toward the bound's plane:
/// the plane lies strictly ahead along the ray's `z` component. A ray
/// starting in the plane, moving parallel to it or moving away fails
/// the test.
pub open spec fn bound_hits(b: BoundingVolume, ray: Ray) -> bool {
    (ray.direction.z > 0 && b.plane_z > ray.origin.z) || (ray.direction.z < 0 && b.plane_z
        < ray.origin.z)
}

/// The bound of a panel: its carrier plane.
pub open spec fn panel_bounds(p: Panel) -> BoundingVolume {
    BoundingVolume { plane_z: p.plane_z }
}

/// The normal a panel shows to a ray: the unit `z` vector facing
/// against the ray's `z` travel.
pub open spec fn panel_normal(p: Panel, ray: Ray) -> Vec3 {
    Vec3 { x: 0, y: 0, z: if ray.direction.z > 0 { (-SCALE) as i64 } else { SCALE } }
}

/// The hit parameter of a panel's carrier plane: the scaled quotient of
/// the plane offset by the direction's `z` component.
pub open spec fn panel_hit_distance(p: Panel, ray: Ray) -> int {
    mul_div_spec(sat64(p.plane_z - ray.origin.z), SCALE as int, ray.direction.z as int)
}

/// Where and whether a ray strikes a panel. A ray whose bound test
/// fails misses outright; otherwise the hit point on the carrier plane
/// is computed and accepted exactly when it falls inside the rectangle.
pub open spec fn panel_hit(p: Panel, ray: Ray) -> Option<IntersectionPayload> {
    if !bound_hits(panel_bounds(p), ray) {
        None
    } else {
        let t = panel_hit_distance(p, ray);
        let hx = sat64(ray.origin.x + mul_div_spec(t, ray.direction.x as int, SCALE as int));
        let hy = sat64(ray.origin.y + mul_div_spec(t, ray.direction.y as int, SCALE as int));
        if p.min_x <= hx && hx <= p.max_x && p.min_y <= hy && hy <= p.max_y {
            Some(
                IntersectionPayload {
                    position: Vec3 { x: hx as i64, y: hy as i64, z: p.plane_z },
                    normal: panel_normal(p, ray),
                    material_id: p.material_id,
                    distance: t as i64,
                },
            )
        } else {
            None
        }
    }
}

/// The hit record of any object, or nothing on a miss.
pub open spec fn object_hit(o: RenderObject, ray: Ray) -> Option<IntersectionPayload> {
    match o {
        RenderObject::Panel(p) => panel_hit(p, ray),
    }
}

/// The conservative bound of any object.
pub open spec fn object_bounds(o: RenderObject) -> BoundingVolume {
    match o {
        RenderObject::Panel(p) => panel_bounds(p),
    }
}

/// The material table index an object's hits carry.
pub open spec fn object_material_id(o: RenderObject) -> usize {
    match o {
        RenderObject::Panel(p) => p.material_id,
    }
}

/// The midpoint of an interval, rounded toward zero.
pub open spec fn midpoint_spec(a: int, b: int) -> int {
    mul_div_spec(sat64(a + b), 1, 2)
}

/// An object's reference point, at which a light-importance sampler
/// aims: the center of a panel's rectangle, on its carrier plane.
pub open spec fn object_center(o: RenderObject) -> Vec3 {
    match o {
        RenderObject::Panel(p) => Vec3 {
            x: midpoint_spec(p.min_x as int, p.max_x as int) as i64,
            y: midpoint_spec(p.min_y as int, p.max_y as int) as i64,
            z: p.plane_z,
        },
    }
}

/// The bound is conservative: an object whose bound rejects a ray is
/// never struck by that ray, so skipping its intersection test after a
/// failed bound test loses no hit.
pub proof fn lemma_bound_conservative(o: RenderObject, ray: Ray)
    requires
        !bound_hits(object_bounds(o), ray),
    ensures
        object_hit(o, ray) is None,
{
    match o {
        RenderObject::Panel(p) => {
        },
    }
}

/// Every hit record carries a non-negative distance and the struck
/// object's own material id.
pub proof fn lemma_hit_well_formed(o: RenderObject, ray: Ray)
    ensures
        match object_hit(o, ray) {
            Some(pl) => pl.distance >= 0 && pl.material_id == object_material_id(o),
            None => true,
        },
{
    match o {
        RenderObject::Panel(p) => {
            if bound_hits(panel_bounds(p), ray) {
                let num = sat64(p.plane_z - ray.origin.z);
                if ray.direction.z > 0 {
                    assert(num >= 1);
                    lemma_tdiv_nonneg(num * (SCALE as int), ray.direction.z as int);
                } else {
                    assert(num <= -1);
                    lemma_tdiv_nonneg(num * (SCALE as int), ray.direction.z as int);
                }
            }
        },
    }
}

impl BoundingVolume {
    /// Runs the fast overlap test of this bounding region.
    pub fn intersect(&self, ray: &Ray) -> (r: bool)
        ensures
            r == bound_hits(*self, *ray),
    {
        (ray.direction.z > 0 && self.plane_z > ray.origin.z) || (ray.direction.z < 0
            && self.plane_z < ray.origin.z)
    }
}

impl Panel {
    /// Builds a panel from its plane, rectangle and material id.
    pub fn new(plane_z: i64, min_x: i64, max_x: i64, min_y: i64, max_y: i64, material_id: usize) -> (p: Panel)
        ensures
            p == (Panel { plane_z, min_x, max_x, min_y, max_y, material_id }),
    {
        Panel { plane_z, min_x, max_x, min_y, max_y, material_id }
    }
}

impl RenderObject {
    /// The conservative bounding region of this object.
    pub fn bounds(&self) -> (b: BoundingVolume)
        ensures
            b == object_bounds(*self),
    {
        match self {
            RenderObject::Panel(p) => BoundingVolume { plane_z: p.plane_z },
        }
    }

    /// Runs the full intersection test: the nearest valid hit of the
    /// ray against this object, or nothing on a miss. Correct on its
    /// own, whether or not the bound test filtered the call.
    pub fn intersect(&self, ray: &Ray) -> (r: Option<IntersectionPayload>)
        ensures
            r == object_hit(*self, *ray),
            match r {
                Some(pl) => pl.distance >= 0 && pl.material_id == object_material_id(*self),
                None => true,
            },
    {
        proof {
            lemma_hit_well_formed(*self, *ray);
        }
        match self {
            RenderObject::Panel(p) => {
                let dz = ray.direction.z;
                let ahead = (dz > 0 && p.plane_z > ray.origin.z) || (dz < 0 && p.plane_z
                    < ray.origin.z);
                if !ahead {
                    None
                } else {
                    let num = sat_sub64(p.plane_z, ray.origin.z);
                    let t = scale_mul_div(num, SCALE, dz);
                    let hx = sat_add64(ray.origin.x, scale_mul_div(t, ray.direction.x, SCALE));
                    let hy = sat_add64(ray.origin.y, scale_mul_div(t, ray.direction.y, SCALE));
                    if p.min_x <= hx && hx <= p.max_x && p.min_y <= hy && hy <= p.max_y {
                        Some(
                            IntersectionPayload {
                                position: Vec3 { x: hx, y: hy, z: p.plane_z },
                                normal: Vec3 {
                                    x: 0,
                                    y: 0,
                                    z: if dz > 0 {
                                        -SCALE
                                    } else {
                                        SCALE
                                    },
                                },
                                material_id: p.material_id,
                                distance: t,
                            },
                        )
                    } else {
                        None
                    }
                }
            },
        }
    }

    /// The reference point a light-importance sampler aims at.
    pub fn center(&self) -> (c: Vec3)
        ensures
            c == object_center(*self),
    {
        match self {
            RenderObject::Panel(p) => Vec3 {
                x: scale_mul_div(sat_add64(p.min_x, p.max_x), 1, 2),
                y: scale_mul_div(sat_add64(p.min_y, p.max_y), 1, 2),
                z: p.plane_z,
            },
        }
    }
}

} // verus!
