//! Three-component fixed-point vectors, used for points, directions and colors.
//!
//! `V3` is the mathematical model: the three raw components as unbounded
//! integers. Every executable operation on `Vec3` returns exactly the value
//! of its specification mirror on the views.

use vstd::prelude::*;
use crate::fx::{
    abs_i, fx_add, fx_div, fx_mul, fx_neg, fx_sqrt, fx_sub, s_add, s_div, s_mul, s_neg, s_sqrt,
    s_sub,
};

verus! {

/// Model of a vector: the raw fixed-point components, unbounded.
pub ghost struct V3 {
    pub x: int,
    pub y: int,
    pub z: int,
}

/// Below this raw magnitude on every component a direction counts as degenerate.
pub const NEAR_EPS: i64 = 8;

/// Build a model vector.
pub open spec fn v3(x: int, y: int, z: int) -> V3 {
    V3 { x, y, z }
}

/// Componentwise sum.
pub open spec fn sv_add(a: V3, b: V3) -> V3 {
    V3 { x: s_add(a.x, b.x), y: s_add(a.y, b.y), z: s_add(a.z, b.z) }
}

/// Componentwise difference.
pub open spec fn sv_sub(a: V3, b: V3) -> V3 {
    V3 { x: s_sub(a.x, b.x), y: s_sub(a.y, b.y), z: s_sub(a.z, b.z) }
}

/// Componentwise negation.
pub open spec fn sv_neg(a: V3) -> V3 {
    V3 { x: s_neg(a.x), y: s_neg(a.y), z: s_neg(a.z) }
}

/// Vector scaled by a fixed-point factor.
pub open spec fn sv_scale(k: int, a: V3) -> V3 {
    V3 { x: s_mul(k, a.x), y: s_mul(k, a.y), z: s_mul(k, a.z) }
}

/// Componentwise (Hadamard) product, the attenuation product on colors.
pub open spec fn sv_cmul(a: V3, b: V3) -> V3 {
    V3 { x: s_mul(a.x, b.x), y: s_mul(a.y, b.y), z: s_mul(a.z, b.z) }
}

/// Componentwise quotient by a fixed-point divisor.
pub open spec fn sv_divs(a: V3, k: int) -> V3 {
    V3 { x: s_div(a.x, k), y: s_div(a.y, k), z: s_div(a.z, k) }
}

/// Dot product.
pub open spec fn sv_dot(a: V3, b: V3) -> int {
    s_add(s_add(s_mul(a.x, b.x), s_mul(a.y, b.y)), s_mul(a.z, b.z))
}

/// Cross product.
pub open spec fn sv_cross(a: V3, b: V3) -> V3 {
    V3 {
        x: s_sub(s_mul(a.y, b.z), s_mul(a.z, b.y)),
        y: s_sub(s_mul(a.z, b.x), s_mul(a.x, b.z)),
        z: s_sub(s_mul(a.x, b.y), s_mul(a.y, b.x)),
    }
}

/// Squared length.
pub open spec fn sv_len_sq(a: V3) -> int {
    sv_dot(a, a)
}

/// Length.
pub open spec fn sv_len(a: V3) -> int {
    s_sqrt(sv_len_sq(a))
}

/// Normalized vector; the zero vector stays zero.
pub open spec fn sv_unit(a: V3) -> V3 {
    let l = sv_len(a);
    if l == 0 {
        v3(0, 0, 0)
    } else {
        sv_divs(a, l)
    }
}

/// Whether every component is of negligible magnitude.
pub open spec fn sv_near_zero(a: V3) -> bool {
    abs_i(a.x) < NEAR_EPS as int && abs_i(a.y) < NEAR_EPS as int && abs_i(a.z) < NEAR_EPS as int
}

/// Every component lies within the saturation bounds.
pub open spec fn sv_bounded(a: V3) -> bool {
    &&& -(crate::fx::MAXV as int) <= a.x <= crate::fx::MAXV as int
    &&& -(crate::fx::MAXV as int) <= a.y <= crate::fx::MAXV as int
    &&& -(crate::fx::MAXV as int) <= a.z <= crate::fx::MAXV as int
}

/// A componentwise quotient is bounded.
pub proof fn lemma_divs_bounded(a: V3, k: int)
    ensures
        sv_bounded(sv_divs(a, k)),
{
    if k != 0 {
        crate::fx::lemma_clip_bounds(crate::fx::tdiv(a.x * (crate::fx::SCALE as int), k));
        crate::fx::lemma_clip_bounds(crate::fx::tdiv(a.y * (crate::fx::SCALE as int), k));
        crate::fx::lemma_clip_bounds(crate::fx::tdiv(a.z * (crate::fx::SCALE as int), k));
    }
}

/// Reflection of `v` about the unit normal `n`.
pub open spec fn sv_reflect(v: V3, n: V3) -> V3 {
    let d = sv_dot(v, n);
    sv_sub(v, sv_scale(s_add(d, d), n))
}

/// An executable vector: three saturating fixed-point components.
#[derive(Clone, Copy, PartialEq, Eq, Structural, Debug)]
pub struct Vec3 {
    pub x: i64,
    pub y: i64,
    pub z: i64,
}

impl Vec3 {
    /// The mathematical view of this vector.
    pub open spec fn v(self) -> V3 {
        V3 { x: self.x as int, y: self.y as int, z: self.z as int }
    }

    /// Build a vector from raw fixed-point components.
    pub fn new(x: i64, y: i64, z: i64) -> (r: Vec3)
        ensures
            r.v() == v3(x as int, y as int, z as int),
    {
        Vec3 { x, y, z }
    }

    /// The zero vector.
    pub fn zero() -> (r: Vec3)
        ensures
            r.v() == v3(0, 0, 0),
    {
        Vec3 { x: 0, y: 0, z: 0 }
    }

    /// Componentwise sum.
    pub fn plus(&self, o: &Vec3) -> (r: Vec3)
        ensures
            r.v() == sv_add(self.v(), o.v()),
    {
        Vec3 { x: fx_add(self.x, o.x), y: fx_add(self.y, o.y), z: fx_add(self.z, o.z) }
    }

    /// Componentwise difference.
    pub fn minus(&self, o: &Vec3) -> (r: Vec3)
        ensures
            r.v() == sv_sub(self.v(), o.v()),
    {
        Vec3 { x: fx_sub(self.x, o.x), y: fx_sub(self.y, o.y), z: fx_sub(self.z, o.z) }
    }

    /// Componentwise negation.
    pub fn negate(&self) -> (r: Vec3)
        ensures
            r.v() == sv_neg(self.v()),
    {
        Vec3 { x: fx_neg(self.x), y: fx_neg(self.y), z: fx_neg(self.z) }
    }

    /// This vector scaled by a fixed-point factor.
    pub fn scaled(&self, k: i64) -> (r: Vec3)
        ensures
            r.v() == sv_scale(k as int, self.v()),
    {
        Vec3 { x: fx_mul(k, self.x), y: fx_mul(k, self.y), z: fx_mul(k, self.z) }
    }

    /// Componentwise product.
    pub fn compmul(&self, o: &Vec3) -> (r: Vec3)
        ensures
            r.v() == sv_cmul(self.v(), o.v()),
    {
        Vec3 { x: fx_mul(self.x, o.x), y: fx_mul(self.y, o.y), z: fx_mul(self.z, o.z) }
    }

    /// Componentwise quotient by a fixed-point divisor.
    pub fn divided(&self, k: i64) -> (r: Vec3)
        ensures
            r.v() == sv_divs(self.v(), k as int),
    {
        Vec3 { x: fx_div(self.x, k), y: fx_div(self.y, k), z: fx_div(self.z, k) }
    }

    /// Dot product.
    pub fn dot(&self, o: &Vec3) -> (r: i64)
        ensures
            r as int == sv_dot(self.v(), o.v()),
    {
        fx_add(fx_add(fx_mul(self.x, o.x), fx_mul(self.y, o.y)), fx_mul(self.z, o.z))
    }

    /// Cross product.
    pub fn cross(&self, o: &Vec3) -> (r: Vec3)
        ensures
            r.v() == sv_cross(self.v(), o.v()),
    {
        Vec3 {
            x: fx_sub(fx_mul(self.y, o.z), fx_mul(self.z, o.y)),
            y: fx_sub(fx_mul(self.z, o.x), fx_mul(self.x, o.z)),
            z: fx_sub(fx_mul(self.x, o.y), fx_mul(self.y, o.x)),
        }
    }

    /// Squared length.
    pub fn len_sq(&self) -> (r: i64)
        ensures
            r as int == sv_len_sq(self.v()),
    {
        self.dot(self)
    }

    /// Length.
    pub fn len(&self) -> (r: i64)
        ensures
            r as int == sv_len(self.v()),
    {
        fx_sqrt(self.len_sq())
    }

    /// Normalized copy; the zero vector stays zero.
    pub fn unit(&self) -> (r: Vec3)
        ensures
            r.v() == sv_unit(self.v()),
    {
        let l: i64 = self.len();
        if l == 0 {
            Vec3 { x: 0, y: 0, z: 0 }
        } else {
            self.divided(l)
        }
    }

    /// Whether every component is of negligible magnitude.
    pub fn near_zero(&self) -> (r: bool)
        ensures
            r == sv_near_zero(self.v()),
    {
        -NEAR_EPS < self.x && self.x < NEAR_EPS && -NEAR_EPS < self.y && self.y < NEAR_EPS
            && -NEAR_EPS < self.z && self.z < NEAR_EPS
    }

    /// Reflection of this vector about the unit normal `n`.
    pub fn reflect(&self, n: &Vec3) -> (r: Vec3)
        ensures
            r.v() == sv_reflect(self.v(), n.v()),
    {
        let d: i64 = self.dot(n);
        self.minus(&n.scaled(fx_add(d, d)))
    }
}

} // verus!
