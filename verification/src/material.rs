//! Material scattering: Lambertian diffuse, fuzzy metal, and dielectric glass.
//!
//! `sp_scatter` is the mathematical account of one scatter decision: given
//! the material, the incoming ray, the hit record and the random state, it
//! yields either an attenuation color and the scattered ray, or absorption,
//! together with the random state after the draws. The executable `scatter`
//! returns exactly that.

use vstd::prelude::*;
use crate::fx::{
    fx_abs, fx_add, fx_div, fx_min, fx_mul, fx_neg, fx_sqrt, fx_sub, s_abs, s_add, s_div, s_min,
    s_mul, s_neg, s_sqrt, s_sub, SCALE,
};
use crate::hittable::{HitRecord, HitV};
use crate::ray::{Ray, RayV};
use crate::rng::{step_state, unit_of, Rng};
use crate::sample::{rand_in_sphere, rand_unit_vec, sp_in_sphere, sp_unit_vec};
use crate::vec3::{
    sv_add, sv_dot, sv_len_sq, sv_near_zero, sv_neg, sv_reflect, sv_scale, sv_unit, v3, V3, Vec3,
};

verus! {

/// Model of a material.
pub ghost enum MaterialV {
    Lambertian { albedo: V3 },
    Metal { albedo: V3, fuzz: int },
    Dielectric { ir: int },
}

/// An executable material.
#[derive(Clone, Copy, PartialEq, Eq, Structural, Debug)]
pub enum Material {
    /// Diffuse: always scatters about the normal, attenuated by the albedo.
    Lambertian { albedo: Vec3 },
    /// Specular with roughness `fuzz` in `[0, SCALE]`; absorbs grazing reflections.
    Metal { albedo: Vec3, fuzz: i64 },
    /// Refractive glass with the given index of refraction; never absorbs.
    Dielectric { ir: i64 },
}

impl Material {
    /// The mathematical view of this material.
    pub open spec fn v(self) -> MaterialV {
        match self {
            Material::Lambertian { albedo } => MaterialV::Lambertian { albedo: albedo.v() },
            Material::Metal { albedo, fuzz } => MaterialV::Metal {
                albedo: albedo.v(),
                fuzz: fuzz as int,
            },
            Material::Dielectric { ir } => MaterialV::Dielectric { ir: ir as int },
        }
    }

    /// A well-formed material: color components in `[0, 1]`, fuzz in `[0, 1]`,
    /// a positive refractive index.
    pub open spec fn wf(self) -> bool {
        material_wf(self.v())
    }
}

/// A well-formed material model.
pub open spec fn material_wf(m: MaterialV) -> bool {
    match m {
        MaterialV::Lambertian { albedo } => color_wf(albedo),
        MaterialV::Metal { albedo, fuzz } => color_wf(albedo) && 0 <= fuzz <= SCALE as int,
        MaterialV::Dielectric { ir } => 0 < ir,
    }
}

/// Every component of a color lies in `[0, 1]`.
pub open spec fn color_wf(c: V3) -> bool {
    0 <= c.x <= SCALE as int && 0 <= c.y <= SCALE as int && 0 <= c.z <= SCALE as int
}

/// Refraction of the unit direction `uv` at a surface with unit normal `n`,
/// with the given ratio of refractive indices.
pub open spec fn sv_refract(uv: V3, n: V3, etai_over_etat: int) -> V3 {
    let cos_theta = s_min(sv_dot(sv_neg(uv), n), SCALE as int);
    let perp = sv_scale(etai_over_etat, sv_add(uv, sv_scale(cos_theta, n)));
    let par = sv_scale(s_neg(s_sqrt(s_abs(s_sub(SCALE as int, sv_len_sq(perp))))), n);
    sv_add(perp, par)
}

/// Schlick's approximation of the reflectance at cosine `cos` and
/// refraction ratio `ratio`.
pub open spec fn schlick(cos: int, ratio: int) -> int {
    let r0a = s_div(s_sub(SCALE as int, ratio), s_add(SCALE as int, ratio));
    let r0 = s_mul(r0a, r0a);
    let f = s_sub(SCALE as int, cos);
    let f5 = s_mul(s_mul(s_mul(s_mul(f, f), f), f), f);
    s_add(r0, s_mul(s_sub(SCALE as int, r0), f5))
}

/// One scatter decision: the attenuation and scattered ray, or absorption,
/// and the random state after the draws.
pub open spec fn sp_scatter(m: MaterialV, r: RayV, h: HitV, s: u64) -> (Option<(V3, RayV)>, u64) {
    match m {
        MaterialV::Lambertian { albedo } => {
            let (ruv, s1) = sp_unit_vec(s);
            let cand = sv_add(h.normal, ruv);
            let dir = if sv_near_zero(cand) {
                h.normal
            } else {
                cand
            };
            (Option::Some((albedo, RayV { origin: h.p, dir })), s1)
        },
        MaterialV::Metal { albedo, fuzz } => {
            let refl = sv_reflect(sv_unit(r.dir), h.normal);
            let (fv, s1) = sp_in_sphere(s);
            let dir = sv_add(refl, sv_scale(fuzz, fv));
            if sv_dot(dir, h.normal) > 0 {
                (Option::Some((albedo, RayV { origin: h.p, dir })), s1)
            } else {
                (Option::None, s1)
            }
        },
        MaterialV::Dielectric { ir } => {
            let ratio = if h.front_face {
                s_div(SCALE as int, ir)
            } else {
                ir
            };
            let unit_dir = sv_unit(r.dir);
            let cos_theta = s_min(sv_dot(sv_neg(unit_dir), h.normal), SCALE as int);
            let sin_theta = s_sqrt(s_sub(SCALE as int, s_mul(cos_theta, cos_theta)));
            let cannot_refract = s_mul(ratio, sin_theta) > SCALE as int;
            let draw = unit_of(s);
            let s1 = step_state(s);
            let dir = if cannot_refract || schlick(cos_theta, ratio) > draw {
                sv_reflect(unit_dir, h.normal)
            } else {
                sv_refract(unit_dir, h.normal, ratio)
            };
            (Option::Some((v3(SCALE as int, SCALE as int, SCALE as int), RayV { origin: h.p, dir })), s1)
        },
    }
}

/// The view of an executable scatter result.
pub open spec fn opt_scatter_v(o: Option<(Vec3, Ray)>) -> Option<(V3, RayV)> {
    match o {
        Option::Some((a, r)) => Option::Some((a.v(), r.v())),
        Option::None => Option::None,
    }
}

/// Refraction, executably.
fn refract(uv: &Vec3, n: &Vec3, etai_over_etat: i64) -> (r: Vec3)
    ensures
        r.v() == sv_refract(uv.v(), n.v(), etai_over_etat as int),
{
    let cos_theta: i64 = fx_min(uv.negate().dot(n), SCALE);
    let perp: Vec3 = uv.plus(&n.scaled(cos_theta)).scaled(etai_over_etat);
    let par: Vec3 = n.scaled(fx_neg(fx_sqrt(fx_abs(fx_sub(SCALE, perp.len_sq())))));
    perp.plus(&par)
}

/// Schlick's reflectance, executably.
fn reflectance(cos: i64, ratio: i64) -> (r: i64)
    ensures
        r as int == schlick(cos as int, ratio as int),
{
    let r0a: i64 = fx_div(fx_sub(SCALE, ratio), fx_add(SCALE, ratio));
    let r0: i64 = fx_mul(r0a, r0a);
    let f: i64 = fx_sub(SCALE, cos);
    let f5: i64 = fx_mul(fx_mul(fx_mul(fx_mul(f, f), f), f), f);
    fx_add(r0, fx_mul(fx_sub(SCALE, r0), f5))
}

/// Decide whether the incoming ray scatters at the given hit, and if so
/// produce the attenuation color and the scattered ray.
pub fn scatter(m: &Material, ray: &Ray, rec: &HitRecord, rng: &mut Rng) -> (res: Option<(Vec3, Ray)>)
    ensures
        (opt_scatter_v(res), final(rng).state) == sp_scatter(
            m.v(),
            ray.v(),
            rec.v(),
            old(rng).state,
        ),
{
    match m {
        Material::Lambertian { albedo } => {
            let ruv: Vec3 = rand_unit_vec(rng);
            let cand: Vec3 = rec.normal.plus(&ruv);
            let dir: Vec3 = if cand.near_zero() {
                rec.normal
            } else {
                cand
            };
            Some((*albedo, Ray::new(rec.p, dir)))
        },
        Material::Metal { albedo, fuzz } => {
            let refl: Vec3 = ray.direction.unit().reflect(&rec.normal);
            let fv: Vec3 = rand_in_sphere(rng);
            let dir: Vec3 = refl.plus(&fv.scaled(*fuzz));
            if dir.dot(&rec.normal) > 0 {
                Some((*albedo, Ray::new(rec.p, dir)))
            } else {
                None
            }
        },
        Material::Dielectric { ir } => {
            let ratio: i64 = if rec.front_face {
                fx_div(SCALE, *ir)
            } else {
                *ir
            };
            let unit_dir: Vec3 = ray.direction.unit();
            let cos_theta: i64 = fx_min(unit_dir.negate().dot(&rec.normal), SCALE);
            let sin_theta: i64 = fx_sqrt(fx_sub(SCALE, fx_mul(cos_theta, cos_theta)));
            let cannot_refract: bool = fx_mul(ratio, sin_theta) > SCALE;
            let draw: i64 = rng.next_unit();
            let dir: Vec3 = if cannot_refract || reflectance(cos_theta, ratio) > draw {
                unit_dir.reflect(&rec.normal)
            } else {
                refract(&unit_dir, &rec.normal, ratio)
            };
            Some((Vec3::new(SCALE, SCALE, SCALE), Ray::new(rec.p, dir)))
        },
    }
}

} // verus!
