//! Tests for panels, their conservative bounds, the materials and the
//! samplers.

use pathtracer::fixed::SCALE;
use pathtracer::materials::{Material, ReflectiveMaterial};
use pathtracer::objects::{Panel, RenderObject};
use pathtracer::ray::Ray;
use pathtracer::samplers::{CosineSampler, MixtureSampler, RenderObjectSampler, Sampler};
use pathtracer::vec3::Vec3;

fn panel(z_whole: i64, half_extent_whole: i64, material_id: usize) -> RenderObject {
    let e: i64 = half_extent_whole * SCALE;
    RenderObject::Panel(Panel::new(z_whole * SCALE, -e, e, -e, e, material_id))
}

fn forward_ray() -> Ray {
    Ray { origin: Vec3::new(0, 0, 0), direction: Vec3::new(0, 0, SCALE) }
}

#[test]
fn panel_hit_ahead() {
    let obj = panel(10, 1, 3);
    let hit = obj.intersect(&forward_ray()).expect("the panel lies ahead");
    assert_eq!(hit.distance, 10 * SCALE);
    assert_eq!(hit.position, Vec3::new(0, 0, 10 * SCALE));
    assert_eq!(hit.normal, Vec3::new(0, 0, -SCALE));
    assert_eq!(hit.material_id, 3);
}

#[test]
fn panel_hit_accounts_for_lateral_travel() {
    let obj = panel(10, 20, 0);
    // Direction (0.5, 0, 1): after 10 units of z travel, x has moved 5.
    let ray = Ray { origin: Vec3::new(0, 0, 0), direction: Vec3::new(SCALE / 2, 0, SCALE) };
    let hit = obj.intersect(&ray).expect("the panel is wide enough");
    assert_eq!(hit.distance, 10 * SCALE);
    assert_eq!(hit.position, Vec3::new(5 * SCALE, 0, 10 * SCALE));
}

#[test]
fn panel_miss_outside_rectangle() {
    let obj = panel(10, 1, 0);
    let ray = Ray { origin: Vec3::new(5 * SCALE, 0, 0), direction: Vec3::new(0, 0, SCALE) };
    assert!(obj.intersect(&ray).is_none());
}

#[test]
fn panel_behind_is_rejected_by_bound_and_missed() {
    let obj = panel(-10, 1, 0);
    let ray = forward_ray();
    assert!(!obj.bounds().intersect(&ray));
    assert!(obj.intersect(&ray).is_none());
}

#[test]
fn panel_parallel_ray_misses() {
    let obj = panel(10, 1, 0);
    let ray = Ray { origin: Vec3::new(0, 0, 0), direction: Vec3::new(SCALE, 0, 0) };
    assert!(!obj.bounds().intersect(&ray));
    assert!(obj.intersect(&ray).is_none());
}

#[test]
fn panel_center_is_the_rectangle_midpoint() {
    let obj = RenderObject::Panel(Panel::new(7 * SCALE, SCALE, 3 * SCALE, -SCALE, SCALE, 0));
    assert_eq!(obj.center(), Vec3::new(2 * SCALE, 0, 7 * SCALE));
}

#[test]
fn reflective_material_responses() {
    let m = ReflectiveMaterial::new(0);
    let dummy_ray = forward_ray();
    let hit = panel(10, 1, 0).intersect(&dummy_ray).expect("hits");
    let d = Vec3::new(0, 0, SCALE);
    assert_eq!(m.emission(&hit), pathtracer::color::Color(0, 0, 0, SCALE));
    assert_eq!(
        m.transmission(&hit, d, d),
        pathtracer::color::Color(SCALE, SCALE, SCALE, SCALE)
    );
    assert_eq!(m.brdf(hit.normal, d, d), SCALE);
    assert!(matches!(m, Material::Reflective(_)));
}

#[test]
fn light_sampler_aims_at_the_target_center() {
    let light = panel(20, 1, 0);
    let s = RenderObjectSampler::new(Vec3::new(0, 0, 10 * SCALE), &light);
    let drawn = s.generate();
    assert_eq!(drawn, Vec3::new(0, 0, 10 * SCALE));
    // Unit density on the drawn direction, none elsewhere.
    assert_eq!(s.value(drawn), SCALE);
    assert_eq!(s.value(Vec3::new(SCALE, 0, 0)), 0);
}

#[test]
fn light_sampler_degenerate_anchor_has_zero_density() {
    let light = panel(10, 1, 0);
    // The anchor sits exactly at the light's center.
    let s = RenderObjectSampler::new(Vec3::new(0, 0, 10 * SCALE), &light);
    let drawn = s.generate();
    assert!(drawn.is_zero());
    assert_eq!(s.value(drawn), 0);
}

#[test]
fn cosine_sampler_prices_by_projection() {
    let normal = Vec3::new(0, 0, SCALE);
    let s = CosineSampler::new(normal);
    assert_eq!(s.generate(), normal);
    assert_eq!(s.value(normal), SCALE);
    assert_eq!(s.value(Vec3::new(0, 0, SCALE / 2)), SCALE / 2);
    // The lower hemisphere carries no density.
    assert_eq!(s.value(Vec3::new(0, 0, -SCALE)), 0);
}

#[test]
fn mixture_sampler_follows_light_arm_and_averages_density() {
    let light = panel(20, 1, 0);
    let ls = RenderObjectSampler::new(Vec3::new(0, 0, 10 * SCALE), &light);
    let cs = CosineSampler::new(Vec3::new(0, 0, SCALE));
    let m = MixtureSampler::new(ls, cs);
    let drawn = m.generate();
    assert_eq!(drawn, ls.generate());
    // The light arm prices the draw at 1.0; the cosine arm at its
    // projection on the normal, here 10.0; the mixture averages them.
    assert_eq!(ls.value(drawn), SCALE);
    assert_eq!(cs.value(drawn), 10 * SCALE);
    assert_eq!(m.value(drawn), (SCALE + 10 * SCALE) / 2);
}

#[test]
fn sampler_dispatch_matches_the_variants() {
    let light = panel(20, 1, 0);
    let ls = RenderObjectSampler::new(Vec3::new(0, 0, 0), &light);
    let cs = CosineSampler::new(Vec3::new(0, SCALE, 0));
    let m = MixtureSampler::new(ls, cs);
    let d = Vec3::new(0, SCALE, 0);
    assert_eq!(Sampler::Light(ls).generate(), ls.generate());
    assert_eq!(Sampler::Cosine(cs).value(d), cs.value(d));
    assert_eq!(Sampler::Mixture(m).value(d), m.value(d));
    // Densities are never negative, whichever variant prices them.
    assert!(Sampler::Light(ls).value(d) >= 0);
    assert!(Sampler::Cosine(cs).value(Vec3::new(0, -SCALE, 0)) >= 0);
    assert!(Sampler::Mixture(m).value(Vec3::new(0, -SCALE, 0)) >= 0);
}
