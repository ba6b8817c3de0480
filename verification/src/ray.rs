//! Rays: an origin and a direction, with point-at-parameter evaluation.

use vstd::prelude::*;
use crate::vec3::{sv_add, sv_scale, V3, Vec3};

verus! {

/// Model of a ray.
pub ghost struct RayV {
    pub origin: V3,
    pub dir: V3,
}

/// The point `origin + t * dir`.
pub open spec fn ray_at(r: RayV, t: int) -> V3 {
    sv_add(r.origin, sv_scale(t, r.dir))
}

/// An executable ray. The direction need not be unit length.
#[derive(Clone, Copy, PartialEq, Eq, Structural, Debug)]
pub struct Ray {
    pub origin: Vec3,
    pub direction: Vec3,
}

impl Ray {
    /// The mathematical view of this ray.
    pub open spec fn v(self) -> RayV {
        RayV { origin: self.origin.v(), dir: self.direction.v() }
    }

    /// Build a ray.
    pub fn new(origin: Vec3, direction: Vec3) -> (r: Ray)
        ensures
            r.v() == (RayV { origin: origin.v(), dir: direction.v() }),
    {
        Ray { origin, direction }
    }

    /// The point at parameter `t` along the ray.
    pub fn at(&self, t: i64) -> (r: Vec3)
        ensures
            r.v() == ray_at(self.v(), t as int),
    {
        self.origin.plus(&self.direction.scaled(t))
    }
}

} // verus!
