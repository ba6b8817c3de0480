//! The sphere primitive and its ray-intersection test.
//!
//! `sp_sphere_hit` is the mathematical account of the intersection: solve
//! the quadratic for the ray-sphere contact parameters, take the nearest
//! root inside the closed query interval, and orient the stored normal
//! against the incoming ray. The executable test returns exactly that.

use vstd::prelude::*;
use crate::fx::{fx_add, fx_div, fx_mul, fx_neg, fx_sqrt, fx_sub, s_add, s_div, s_mul, s_neg, s_sqrt, s_sub};
use crate::ray::{ray_at, Ray, RayV};
use crate::vec3::{sv_divs, sv_dot, sv_len_sq, sv_neg, sv_sub, V3, Vec3};

verus! {

/// Model of an intersection record.
pub ghost struct HitV {
    pub p: V3,
    pub normal: V3,
    pub t: int,
    pub front_face: bool,
    pub mat: int,
}

/// Model of a sphere.
pub ghost struct SphereV {
    pub center: V3,
    pub radius: int,
    pub mat: int,
}

/// The discriminant of the ray-sphere quadratic, in fixed point.
pub open spec fn sphere_disc(s: SphereV, r: RayV) -> int {
    let oc = sv_sub(r.origin, s.center);
    let a = sv_len_sq(r.dir);
    let half_b = sv_dot(oc, r.dir);
    let c = s_sub(sv_len_sq(oc), s_mul(s.radius, s.radius));
    s_sub(s_mul(half_b, half_b), s_mul(a, c))
}

/// The record for a hit of sphere `s` by ray `r` at parameter `t`:
/// the contact point, and the outward normal flipped against the ray.
pub open spec fn mk_hit(s: SphereV, r: RayV, t: int) -> HitV {
    let p = ray_at(r, t);
    let outward = sv_divs(sv_sub(p, s.center), s.radius);
    let ff = sv_dot(r.dir, outward) < 0;
    HitV {
        p,
        normal: if ff {
            outward
        } else {
            sv_neg(outward)
        },
        t,
        front_face: ff,
        mat: s.mat,
    }
}

/// Nearest intersection of ray `r` with sphere `s` at a parameter in
/// `[t_min, t_max]`, if any: the smaller quadratic root is preferred.
pub open spec fn sp_sphere_hit(s: SphereV, r: RayV, t_min: int, t_max: int) -> Option<HitV> {
    let oc = sv_sub(r.origin, s.center);
    let a = sv_len_sq(r.dir);
    let half_b = sv_dot(oc, r.dir);
    let disc = sphere_disc(s, r);
    if disc < 0 {
        None
    } else {
        let sq = s_sqrt(disc);
        let r1 = s_div(s_sub(s_neg(half_b), sq), a);
        let r2 = s_div(s_add(s_neg(half_b), sq), a);
        if t_min <= r1 && r1 <= t_max {
            Some(mk_hit(s, r, r1))
        } else if t_min <= r2 && r2 <= t_max {
            Some(mk_hit(s, r, r2))
        } else {
            None
        }
    }
}

/// An executable intersection record.
#[derive(Clone, Copy, PartialEq, Eq, Structural, Debug)]
pub struct HitRecord {
    pub p: Vec3,
    pub normal: Vec3,
    pub t: i64,
    pub front_face: bool,
    pub mat: usize,
}

impl HitRecord {
    /// The mathematical view of this record.
    pub open spec fn v(self) -> HitV {
        HitV {
            p: self.p.v(),
            normal: self.normal.v(),
            t: self.t as int,
            front_face: self.front_face,
            mat: self.mat as int,
        }
    }
}

/// The view of an optional record.
pub open spec fn opt_hit_v(o: Option<HitRecord>) -> Option<HitV> {
    match o {
        Option::Some(h) => Option::Some(h.v()),
        Option::None => Option::None,
    }
}

/// An executable sphere: center, radius and the index of its material
/// in the scene's material arena.
#[derive(Clone, Copy, PartialEq, Eq, Structural, Debug)]
pub struct Sphere {
    pub center: Vec3,
    pub radius: i64,
    pub mat: usize,
}

impl Sphere {
    /// The mathematical view of this sphere.
    pub open spec fn v(self) -> SphereV {
        SphereV { center: self.center.v(), radius: self.radius as int, mat: self.mat as int }
    }

    /// Build a sphere over material arena index `mat`.
    pub fn new(center: Vec3, radius: i64, mat: usize) -> (r: Sphere)
        ensures
            r.v() == (SphereV { center: center.v(), radius: radius as int, mat: mat as int }),
    {
        Sphere { center, radius, mat }
    }

    /// Nearest intersection with `ray` at a parameter in `[t_min, t_max]`, if any.
    pub fn hit(&self, ray: &Ray, t_min: i64, t_max: i64) -> (r: Option<HitRecord>)
        ensures
            opt_hit_v(r) == sp_sphere_hit(self.v(), ray.v(), t_min as int, t_max as int),
    {
        let oc: Vec3 = ray.origin.minus(&self.center);
        let a: i64 = ray.direction.len_sq();
        let half_b: i64 = oc.dot(&ray.direction);
        let c: i64 = fx_sub(oc.len_sq(), fx_mul(self.radius, self.radius));
        let disc: i64 = fx_sub(fx_mul(half_b, half_b), fx_mul(a, c));
        if disc < 0 {
            return None;
        }
        let sq: i64 = fx_sqrt(disc);
        let r1: i64 = fx_div(fx_sub(fx_neg(half_b), sq), a);
        let r2: i64 = fx_div(fx_add(fx_neg(half_b), sq), a);
        if t_min <= r1 && r1 <= t_max {
            Some(self.record_at(ray, r1))
        } else if t_min <= r2 && r2 <= t_max {
            Some(self.record_at(ray, r2))
        } else {
            None
        }
    }

    /// The record for a hit at parameter `t`.
    fn record_at(&self, ray: &Ray, t: i64) -> (r: HitRecord)
        ensures
            r.v() == mk_hit(self.v(), ray.v(), t as int),
    {
        let p: Vec3 = ray.at(t);
        let outward: Vec3 = p.minus(&self.center).divided(self.radius);
        let ff: bool = ray.direction.dot(&outward) < 0;
        let normal: Vec3 = if ff {
            outward
        } else {
            outward.negate()
        };
        HitRecord { p, normal, t, front_face: ff, mat: self.mat }
    }
}

} // verus!
