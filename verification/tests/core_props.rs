//! Tests of the fixed-point scalars, vectors, random generator, sphere
//! intersection, scene aggregation and material scattering.

use raytracer::fx::{fx_abs, fx_add, fx_div, fx_min, fx_mul, fx_neg, fx_sqrt, fx_sub, MAXV, SCALE};
use raytracer::hittable::{HitRecord, Sphere};
use raytracer::material::{scatter, Material};
use raytracer::ray::Ray;
use raytracer::rng::Rng;
use raytracer::scene::Scene;
use raytracer::vec3::Vec3;

const S: i64 = SCALE;

#[test]
fn fx_add_sub_neg_exact() {
    assert_eq!(fx_add(S, S), 2 * S);
    assert_eq!(fx_sub(S, 3 * S), -2 * S);
    assert_eq!(fx_neg(-7), 7);
    assert_eq!(fx_add(MAXV, MAXV), MAXV);
    assert_eq!(fx_sub(-MAXV, MAXV), -MAXV);
    assert_eq!(fx_abs(-3), 3);
    assert_eq!(fx_min(4, -9), -9);
}

#[test]
fn fx_mul_exact_and_truncating() {
    assert_eq!(fx_mul(2 * S, 3 * S), 6 * S);
    assert_eq!(fx_mul(-2 * S, 3 * S), -6 * S);
    assert_eq!(fx_mul(S / 2, S / 2), S / 4);
    // products of tiny magnitudes truncate toward zero
    assert_eq!(fx_mul(1, 1), 0);
    assert_eq!(fx_mul(-1, 1), 0);
}

#[test]
fn fx_div_exact_truncating_and_total() {
    assert_eq!(fx_div(S, 2 * S), S / 2);
    assert_eq!(fx_div(7 * S, 2 * S), 7 * S / 2);
    assert_eq!(fx_div(-3 * S, 2 * S), -3 * S / 2);
    assert_eq!(fx_div(5, 0), 0);
}

#[test]
fn fx_sqrt_exact_values() {
    assert_eq!(fx_sqrt(4 * S), 2 * S);
    assert_eq!(fx_sqrt(S), S);
    assert_eq!(fx_sqrt(0), 0);
    assert_eq!(fx_sqrt(-5), 0);
    // isqrt(2 * 65536 * 65536) = 92681
    assert_eq!(fx_sqrt(2 * S), 92681);
}

#[test]
fn rng_streams_are_deterministic() {
    let mut a = Rng::new(42);
    let mut b = Rng::new(42);
    for _ in 0..32 {
        assert_eq!(a.next_u64(), b.next_u64());
    }
    let mut r1 = Rng::for_row(7, 3);
    let mut r2 = Rng::for_row(7, 3);
    assert_eq!(r1.next_u64(), r2.next_u64());
}

#[test]
fn rng_samples_in_range() {
    let mut rng = Rng::new(12345);
    for _ in 0..200 {
        let u = rng.next_unit();
        assert!(0 <= u && u < S);
    }
    for _ in 0..200 {
        let v = rng.next_sym();
        assert!(-S <= v && v < S);
    }
}

#[test]
fn vec_algebra_exact() {
    let a = Vec3::new(S, 2 * S, 3 * S);
    let b = Vec3::new(4 * S, 5 * S, 6 * S);
    assert_eq!(a.dot(&b), 32 * S);
    let x = Vec3::new(S, 0, 0);
    let y = Vec3::new(0, S, 0);
    assert_eq!(x.cross(&y), Vec3::new(0, 0, S));
    let v = Vec3::new(S, -S, 0);
    assert_eq!(v.reflect(&y), Vec3::new(S, S, 0));
    let w = Vec3::new(3 * S, 4 * S, 0);
    assert_eq!(w.len(), 5 * S);
    let u = w.unit();
    assert_eq!(u, Vec3::new(39321, 52428, 0));
    assert!(Vec3::new(0, 0, 0).near_zero());
    assert!(!x.near_zero());
}

#[test]
fn sphere_through_center_symmetric_roots() {
    // Unit sphere at the origin; ray through the center from x = -3.
    let sphere = Sphere::new(Vec3::new(0, 0, 0), S, 0);
    let ray = Ray::new(Vec3::new(-3 * S, 0, 0), Vec3::new(S, 0, 0));
    let near = sphere.hit(&ray, 66, MAXV).expect("must hit");
    assert_eq!(near.t, 2 * S);
    assert_eq!(near.p, Vec3::new(-S, 0, 0));
    assert_eq!(near.normal, Vec3::new(-S, 0, 0));
    assert!(near.front_face);
    // excluding the near root exposes the far one, symmetric about t = 3
    let far = sphere.hit(&ray, 2 * S + S / 2, MAXV).expect("must hit far root");
    assert_eq!(far.t, 4 * S);
    assert_eq!((3 * S - near.t), (far.t - 3 * S));
}

#[test]
fn sphere_missed_beyond_radius() {
    // perpendicular distance 2 from the center exceeds the radius 1
    let sphere = Sphere::new(Vec3::new(0, 0, 0), S, 0);
    let ray = Ray::new(Vec3::new(-3 * S, 2 * S, 0), Vec3::new(S, 0, 0));
    assert!(sphere.hit(&ray, 66, MAXV).is_none());
}

#[test]
fn sphere_hit_from_inside_flips_normal() {
    let sphere = Sphere::new(Vec3::new(0, 0, 0), S, 0);
    let ray = Ray::new(Vec3::new(0, 0, 0), Vec3::new(S, 0, 0));
    let rec = sphere.hit(&ray, 66, MAXV).expect("must hit from inside");
    assert_eq!(rec.t, S);
    assert!(!rec.front_face);
    assert_eq!(rec.normal, Vec3::new(-S, 0, 0));
    // the stored normal always opposes the incoming ray
    assert!(rec.normal.dot(&ray.direction) <= 0);
}

#[test]
fn scene_reports_nearest_hit_in_any_order() {
    let gray = Material::Lambertian { albedo: Vec3::new(S / 2, S / 2, S / 2) };
    let ray = Ray::new(Vec3::new(0, 0, 0), Vec3::new(S, 0, 0));

    let mut near_first = Scene::new();
    let m0 = near_first.add_material(gray);
    near_first.add_sphere(Vec3::new(5 * S, 0, 0), S, m0);
    near_first.add_sphere(Vec3::new(10 * S, 0, 0), S, m0);

    let mut far_first = Scene::new();
    let m1 = far_first.add_material(gray);
    far_first.add_sphere(Vec3::new(10 * S, 0, 0), S, m1);
    far_first.add_sphere(Vec3::new(5 * S, 0, 0), S, m1);

    let a = near_first.hit(&ray, 66, MAXV).expect("must hit");
    let b = far_first.hit(&ray, 66, MAXV).expect("must hit");
    assert_eq!(a.t, 4 * S);
    assert_eq!(b.t, 4 * S);
    assert_eq!(a.p, b.p);
    assert_eq!(a.normal, b.normal);
}

#[test]
fn scene_miss_means_every_member_missed() {
    let gray = Material::Lambertian { albedo: Vec3::new(S / 2, S / 2, S / 2) };
    let mut scene = Scene::new();
    let m = scene.add_material(gray);
    scene.add_sphere(Vec3::new(5 * S, 3 * S, 0), S, m);
    scene.add_sphere(Vec3::new(9 * S, -4 * S, 0), S, m);
    let ray = Ray::new(Vec3::new(0, 0, 0), Vec3::new(S, 0, 0));
    assert!(scene.hit(&ray, 66, MAXV).is_none());
}

#[test]
fn lambertian_attenuates_by_albedo() {
    let albedo = Vec3::new(S / 2, S / 4, S / 8);
    let mat = Material::Lambertian { albedo };
    let sphere = Sphere::new(Vec3::new(0, 0, 0), S, 0);
    let ray = Ray::new(Vec3::new(-3 * S, 0, 0), Vec3::new(S, 0, 0));
    let rec = sphere.hit(&ray, 66, MAXV).unwrap();
    let mut rng = Rng::new(9);
    let (att, scattered) = scatter(&mat, &ray, &rec, &mut rng).expect("lambertian always scatters");
    assert_eq!(att, albedo);
    assert_eq!(scattered.origin, rec.p);
}

#[test]
fn mirror_metal_reflects_exactly() {
    let albedo = Vec3::new(S, S, S);
    let mat = Material::Metal { albedo, fuzz: 0 };
    let sphere = Sphere::new(Vec3::new(0, -1000 * S, 0), 1000 * S, 0);
    let ray = Ray::new(Vec3::new(0, S, 0), Vec3::new(0, -S, 0));
    let rec = sphere.hit(&ray, 66, MAXV).unwrap();
    let mut rng = Rng::new(11);
    let (att, scattered) = scatter(&mat, &ray, &rec, &mut rng).expect("head-on metal scatters");
    assert_eq!(att, albedo);
    assert_eq!(scattered.direction, Vec3::new(0, S, 0));
}

#[test]
fn metal_grazing_reflection_absorbed() {
    // a reflection that stays in the surface plane points no way off it:
    // the ray is absorbed rather than scattered
    let mat = Material::Metal { albedo: Vec3::new(S, S, S), fuzz: 0 };
    let ray = Ray::new(Vec3::new(-S, 0, 0), Vec3::new(S, 0, 0));
    let rec = HitRecord {
        p: Vec3::new(0, 0, 0),
        normal: Vec3::new(0, S, 0),
        t: S,
        front_face: true,
        mat: 0,
    };
    let mut rng = Rng::new(17);
    assert!(scatter(&mat, &ray, &rec, &mut rng).is_none());
}

#[test]
fn dielectric_attenuation_is_unity() {
    let mat = Material::Dielectric { ir: 3 * S / 2 };
    let sphere = Sphere::new(Vec3::new(0, 0, 0), S, 0);
    let ray = Ray::new(Vec3::new(-3 * S, 0, 0), Vec3::new(S, 0, 0));
    let rec = sphere.hit(&ray, 66, MAXV).unwrap();
    let mut rng = Rng::new(13);
    let (att, _) = scatter(&mat, &ray, &rec, &mut rng).expect("glass never absorbs");
    assert_eq!(att, Vec3::new(S, S, S));
}
