//! Randomized vector generators: points in the unit sphere and unit disk,
//! and random unit vectors, by bounded rejection sampling.
//!
//! Rejection is given a fixed budget of attempts; if every attempt falls
//! outside the target region (probability below 1e-10 for the sphere), the
//! generator yields the zero vector, which downstream scatter logic treats
//! as a degenerate direction and replaces.

use vstd::prelude::*;
use crate::fx::SCALE;
use crate::rng::{step_state, sym_of, Rng};
use crate::vec3::{sv_len_sq, sv_unit, v3, V3, Vec3};

verus! {

/// Number of rejection attempts before falling back to the zero vector.
pub const REJECT_TRIES: u32 = 32;

/// Rejection sampling of a point in the open unit sphere, with `fuel` attempts left.
pub open spec fn in_sphere_rec(s: u64, fuel: nat) -> (V3, u64)
    decreases fuel,
{
    if fuel == 0 {
        (v3(0, 0, 0), s)
    } else {
        let x = sym_of(s);
        let s1 = step_state(s);
        let y = sym_of(s1);
        let s2 = step_state(s1);
        let z = sym_of(s2);
        let s3 = step_state(s2);
        let cand = v3(x, y, z);
        if sv_len_sq(cand) < SCALE as int {
            (cand, s3)
        } else {
            in_sphere_rec(s3, (fuel - 1) as nat)
        }
    }
}

/// A random point in the open unit sphere.
pub open spec fn sp_in_sphere(s: u64) -> (V3, u64) {
    in_sphere_rec(s, REJECT_TRIES as nat)
}

/// A random unit vector: a point in the unit sphere, normalized.
pub open spec fn sp_unit_vec(s: u64) -> (V3, u64) {
    let (cand, s1) = sp_in_sphere(s);
    (sv_unit(cand), s1)
}

/// Rejection sampling of a point in the open unit disk (z = 0), with `fuel` attempts left.
pub open spec fn in_disk_rec(s: u64, fuel: nat) -> (V3, u64)
    decreases fuel,
{
    if fuel == 0 {
        (v3(0, 0, 0), s)
    } else {
        let x = sym_of(s);
        let s1 = step_state(s);
        let y = sym_of(s1);
        let s2 = step_state(s1);
        let cand = v3(x, y, 0);
        if sv_len_sq(cand) < SCALE as int {
            (cand, s2)
        } else {
            in_disk_rec(s2, (fuel - 1) as nat)
        }
    }
}

/// A random point in the open unit disk.
pub open spec fn sp_in_disk(s: u64) -> (V3, u64) {
    in_disk_rec(s, REJECT_TRIES as nat)
}

fn in_sphere_go(rng: &mut Rng, fuel: u32) -> (r: Vec3)
    ensures
        (r.v(), final(rng).state) == in_sphere_rec(old(rng).state, fuel as nat),
    decreases fuel,
{
    if fuel == 0 {
        Vec3::zero()
    } else {
        let x: i64 = rng.next_sym();
        let y: i64 = rng.next_sym();
        let z: i64 = rng.next_sym();
        let cand = Vec3::new(x, y, z);
        if cand.len_sq() < SCALE {
            cand
        } else {
            in_sphere_go(rng, fuel - 1)
        }
    }
}

/// Draw a random point in the open unit sphere.
pub fn rand_in_sphere(rng: &mut Rng) -> (r: Vec3)
    ensures
        (r.v(), final(rng).state) == sp_in_sphere(old(rng).state),
{
    in_sphere_go(rng, REJECT_TRIES)
}

/// Draw a random unit vector.
pub fn rand_unit_vec(rng: &mut Rng) -> (r: Vec3)
    ensures
        (r.v(), final(rng).state) == sp_unit_vec(old(rng).state),
{
    let cand = rand_in_sphere(rng);
    cand.unit()
}

fn in_disk_go(rng: &mut Rng, fuel: u32) -> (r: Vec3)
    ensures
        (r.v(), final(rng).state) == in_disk_rec(old(rng).state, fuel as nat),
    decreases fuel,
{
    if fuel == 0 {
        Vec3::zero()
    } else {
        let x: i64 = rng.next_sym();
        let y: i64 = rng.next_sym();
        let cand = Vec3::new(x, y, 0);
        if cand.len_sq() < SCALE {
            cand
        } else {
            in_disk_go(rng, fuel - 1)
        }
    }
}

/// Draw a random point in the open unit disk.
pub fn rand_in_disk(rng: &mut Rng) -> (r: Vec3)
    ensures
        (r.v(), final(rng).state) == sp_in_disk(old(rng).state),
{
    in_disk_go(rng, REJECT_TRIES)
}

} // verus!
