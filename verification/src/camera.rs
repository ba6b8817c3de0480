//! The thin-lens camera: maps normalized image-plane coordinates to
//! world-space rays, with depth of field from a sampled lens disk.
//!
//! Construction precomputes the orthonormal basis and viewport extents once
//! from look-from/look-at/up, the vertical field of view in degrees, the
//! aspect ratio, the aperture and the focus distance. The half-height of
//! the viewport is `tan(vfov/2)`, evaluated by a fixed odd polynomial.

use vstd::prelude::*;
use crate::fx::{fx_add, fx_div, fx_mul, s_add, s_div, s_mul};
use crate::ray::{Ray, RayV};
use crate::rng::Rng;
use crate::sample::{rand_in_disk, sp_in_disk};
use crate::vec3::{sv_add, sv_cross, sv_divs, sv_scale, sv_sub, sv_unit, V3, Vec3};

verus! {

/// One half-degree in radians, in fixed point: `pi / 360`.
pub const HALF_DEG_RAD: i64 = 572;

/// The fixed-point value 2.
pub const TWO_FX: i64 = 131072;

/// The fixed-point value 3.
pub const THREE_FX: i64 = 196608;

/// The fixed-point value 15.
pub const FIFTEEN_FX: i64 = 983040;

/// `tan(vfov / 2)` for a field of view given in degrees, by the odd
/// polynomial `x + x^3/3 + 2 x^5/15` after conversion to radians.
pub open spec fn tan_half_fov(vfov: int) -> int {
    let x = s_mul(vfov, HALF_DEG_RAD as int);
    let x2 = s_mul(x, x);
    let x3 = s_mul(x2, x);
    let x5 = s_mul(x3, x2);
    s_add(x, s_add(s_div(x3, THREE_FX as int), s_div(s_add(x5, x5), FIFTEEN_FX as int)))
}

/// Model of a camera: the precomputed ray-generation parameters.
pub ghost struct CameraV {
    pub origin: V3,
    pub lower_left: V3,
    pub horizontal: V3,
    pub vertical: V3,
    pub u: V3,
    pub v: V3,
    pub lens_radius: int,
}

/// The camera derived from the given viewing parameters.
pub open spec fn sp_camera(
    lookfrom: V3,
    lookat: V3,
    vup: V3,
    vfov: int,
    aspect: int,
    aperture: int,
    focus_dist: int,
) -> CameraV {
    let h = tan_half_fov(vfov);
    let viewport_h = s_add(h, h);
    let viewport_w = s_mul(aspect, viewport_h);
    let w = sv_unit(sv_sub(lookfrom, lookat));
    let u = sv_unit(sv_cross(vup, w));
    let v = sv_cross(w, u);
    let horizontal = sv_scale(s_mul(focus_dist, viewport_w), u);
    let vertical = sv_scale(s_mul(focus_dist, viewport_h), v);
    let lower_left = sv_sub(
        sv_sub(sv_sub(lookfrom, sv_divs(horizontal, TWO_FX as int)), sv_divs(vertical, TWO_FX as int)),
        sv_scale(focus_dist, w),
    );
    CameraV {
        origin: lookfrom,
        lower_left,
        horizontal,
        vertical,
        u,
        v,
        lens_radius: s_div(aperture, TWO_FX as int),
    }
}

/// The ray for normalized image-plane coordinates `(s, t)`, with a lens
/// offset drawn from the unit disk, and the random state after the draw.
pub open spec fn sp_get_ray(c: CameraV, s: int, t: int, state: u64) -> (RayV, u64) {
    let (d, state1) = sp_in_disk(state);
    let rd = sv_scale(c.lens_radius, d);
    let offset = sv_add(sv_scale(rd.x, c.u), sv_scale(rd.y, c.v));
    let dir = sv_sub(
        sv_sub(
            sv_add(c.lower_left, sv_add(sv_scale(s, c.horizontal), sv_scale(t, c.vertical))),
            c.origin,
        ),
        offset,
    );
    (RayV { origin: sv_add(c.origin, offset), dir }, state1)
}

/// An executable camera.
#[derive(Clone, Copy, PartialEq, Eq, Structural, Debug)]
pub struct Camera {
    pub origin: Vec3,
    pub lower_left: Vec3,
    pub horizontal: Vec3,
    pub vertical: Vec3,
    pub u: Vec3,
    pub v: Vec3,
    pub lens_radius: i64,
}

impl Camera {
    /// The mathematical view of this camera.
    pub open spec fn cv(self) -> CameraV {
        CameraV {
            origin: self.origin.v(),
            lower_left: self.lower_left.v(),
            horizontal: self.horizontal.v(),
            vertical: self.vertical.v(),
            u: self.u.v(),
            v: self.v.v(),
            lens_radius: self.lens_radius as int,
        }
    }

    /// Build a camera from viewing parameters: eye position, target, up
    /// vector, vertical field of view in degrees, aspect ratio, aperture
    /// and focus distance (all fixed point).
    pub fn new(
        lookfrom: Vec3,
        lookat: Vec3,
        vup: Vec3,
        vfov_deg: i64,
        aspect: i64,
        aperture: i64,
        focus_dist: i64,
    ) -> (c: Camera)
        ensures
            c.cv() == sp_camera(
                lookfrom.v(),
                lookat.v(),
                vup.v(),
                vfov_deg as int,
                aspect as int,
                aperture as int,
                focus_dist as int,
            ),
    {
        let x: i64 = fx_mul(vfov_deg, HALF_DEG_RAD);
        let x2: i64 = fx_mul(x, x);
        let x3: i64 = fx_mul(x2, x);
        let x5: i64 = fx_mul(x3, x2);
        let h: i64 = fx_add(x, fx_add(fx_div(x3, THREE_FX), fx_div(fx_add(x5, x5), FIFTEEN_FX)));
        let viewport_h: i64 = fx_add(h, h);
        let viewport_w: i64 = fx_mul(aspect, viewport_h);
        let w: Vec3 = lookfrom.minus(&lookat).unit();
        let u: Vec3 = vup.cross(&w).unit();
        let v: Vec3 = w.cross(&u);
        let horizontal: Vec3 = u.scaled(fx_mul(focus_dist, viewport_w));
        let vertical: Vec3 = v.scaled(fx_mul(focus_dist, viewport_h));
        let lower_left: Vec3 = lookfrom
            .minus(&horizontal.divided(TWO_FX))
            .minus(&vertical.divided(TWO_FX))
            .minus(&w.scaled(focus_dist));
        Camera {
            origin: lookfrom,
            lower_left,
            horizontal,
            vertical,
            u,
            v,
            lens_radius: fx_div(aperture, TWO_FX),
        }
    }

    /// The ray for normalized image-plane coordinates `(s, t)`, jittered by
    /// a random lens offset for depth of field.
    pub fn get_ray(&self, s: i64, t: i64, rng: &mut Rng) -> (r: Ray)
        ensures
            (r.v(), final(rng).state) == sp_get_ray(self.cv(), s as int, t as int, old(rng).state),
    {
        let d: Vec3 = rand_in_disk(rng);
        let rd: Vec3 = d.scaled(self.lens_radius);
        let offset: Vec3 = self.u.scaled(rd.x).plus(&self.v.scaled(rd.y));
        let dir: Vec3 = self
            .lower_left
            .plus(&self.horizontal.scaled(s).plus(&self.vertical.scaled(t)))
            .minus(&self.origin)
            .minus(&offset);
        Ray { origin: self.origin.plus(&offset), direction: dir }
    }
}

} // verus!
