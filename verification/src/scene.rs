//! The aggregate scene: an ordered list of spheres over a material arena.
//!
//! Materials are shared across spheres by arena index. Intersection scans
//! every member and keeps the closest accepted hit, shrinking the effective
//! upper bound of the search interval to the best parameter found so far.

use vstd::prelude::*;
use crate::hittable::{opt_hit_v, sp_sphere_hit, HitRecord, HitV, Sphere, SphereV};
use crate::material::{Material, MaterialV};
use crate::ray::{Ray, RayV};
use crate::vec3::Vec3;

verus! {

/// Model of a scene: the member spheres and the material arena.
pub ghost struct SceneV {
    pub spheres: Seq<SphereV>,
    pub materials: Seq<MaterialV>,
}

/// Scan members from index `i` on, keeping the closest accepted hit:
/// each member is queried with the upper bound shrunk to the parameter of
/// the best hit so far.
pub open spec fn scan(
    spheres: Seq<SphereV>,
    r: RayV,
    t_min: int,
    t_max: int,
    i: nat,
    best: Option<HitV>,
) -> Option<HitV>
    decreases spheres.len() - i,
{
    if i >= spheres.len() {
        best
    } else {
        let limit = match best {
            Option::Some(b) => b.t,
            Option::None => t_max,
        };
        let cur = sp_sphere_hit(spheres[i as int], r, t_min, limit);
        let nb = match cur {
            Option::Some(_) => cur,
            Option::None => best,
        };
        scan(spheres, r, t_min, t_max, (i + 1) as nat, nb)
    }
}

/// Nearest intersection of the ray with any member, in `[t_min, t_max]`.
pub open spec fn sp_scene_hit(sc: SceneV, r: RayV, t_min: int, t_max: int) -> Option<HitV> {
    scan(sc.spheres, r, t_min, t_max, 0, Option::None)
}

/// The material index of a scan result stays below any bound that holds for
/// every member and for the starting candidate.
pub proof fn lemma_scan_mat_bound(
    spheres: Seq<SphereV>,
    r: RayV,
    t_min: int,
    t_max: int,
    i: nat,
    best: Option<HitV>,
    m: int,
)
    requires
        forall|j: int| 0 <= j < spheres.len() ==> 0 <= #[trigger] spheres[j].mat < m,
        match best {
            Option::Some(b) => 0 <= b.mat < m,
            Option::None => true,
        },
    ensures
        match scan(spheres, r, t_min, t_max, i, best) {
            Option::Some(h) => 0 <= h.mat < m,
            Option::None => true,
        },
    decreases spheres.len() - i,
{
    if i >= spheres.len() {
    } else {
        let limit = match best {
            Option::Some(b) => b.t,
            Option::None => t_max,
        };
        let cur = sp_sphere_hit(spheres[i as int], r, t_min, limit);
        let nb = match cur {
            Option::Some(_) => cur,
            Option::None => best,
        };
        assert(match cur {
            Option::Some(h) => h.mat == spheres[i as int].mat,
            Option::None => true,
        });
        lemma_scan_mat_bound(spheres, r, t_min, t_max, (i + 1) as nat, nb, m);
    }
}

/// An executable scene.
pub struct Scene {
    pub spheres: Vec<Sphere>,
    pub materials: Vec<Material>,
}

impl Scene {
    /// The mathematical view of this scene.
    pub open spec fn v(self) -> SceneV {
        SceneV {
            spheres: self.spheres@.map_values(|s: Sphere| s.v()),
            materials: self.materials@.map_values(|m: Material| m.v()),
        }
    }

    /// Every sphere's material index points into the arena.
    pub open spec fn wf(self) -> bool {
        forall|j: int|
            0 <= j < self.spheres@.len() ==> (#[trigger] self.spheres@[j].mat)
                < self.materials@.len()
    }

    /// An empty scene.
    pub fn new() -> (r: Scene)
        ensures
            r.v().spheres.len() == 0,
            r.v().materials.len() == 0,
            r.wf(),
    {
        Scene { spheres: Vec::new(), materials: Vec::new() }
    }

    /// Add a material to the arena and return its index.
    pub fn add_material(&mut self, m: Material) -> (idx: usize)
        ensures
            final(self).materials@ == old(self).materials@.push(m),
            final(self).spheres@ == old(self).spheres@,
            idx == old(self).materials@.len(),
            old(self).wf() ==> final(self).wf(),
    {
        let idx: usize = self.materials.len();
        self.materials.push(m);
        idx
    }

    /// Add a sphere over the material at arena index `mat`.
    pub fn add_sphere(&mut self, center: Vec3, radius: i64, mat: usize)
        requires
            mat < old(self).materials@.len(),
        ensures
            final(self).spheres@ == old(self).spheres@.push(
                Sphere { center, radius, mat },
            ),
            final(self).materials@ == old(self).materials@,
            old(self).wf() ==> final(self).wf(),
    {
        self.spheres.push(Sphere { center, radius, mat });
    }

    /// Decide well-formedness: every sphere's material index in range.
    pub fn check_wf(&self) -> (r: bool)
        ensures
            r == self.wf(),
    {
        let n: usize = self.spheres.len();
        let m: usize = self.materials.len();
        let mut i: usize = 0;
        while i < n
            invariant
                i <= n,
                n == self.spheres@.len(),
                m == self.materials@.len(),
                forall|j: int| 0 <= j < i ==> (#[trigger] self.spheres@[j].mat) < m,
            decreases n - i,
        {
            if self.spheres[i].mat >= m {
                return false;
            }
            i = i + 1;
        }
        true
    }

    /// Number of member spheres.
    pub fn sphere_count(&self) -> (n: usize)
        ensures
            n == self.spheres@.len(),
    {
        self.spheres.len()
    }

    /// Nearest intersection of the ray with any member, in `[t_min, t_max]`.
    pub fn hit(&self, ray: &Ray, t_min: i64, t_max: i64) -> (r: Option<HitRecord>)
        ensures
            opt_hit_v(r) == sp_scene_hit(self.v(), ray.v(), t_min as int, t_max as int),
            self.wf() ==> match r {
                Option::Some(h) => h.mat < self.materials@.len(),
                Option::None => true,
            },
    {
        let r = scan_go(&self.spheres, ray, t_min, t_max, 0, None);
        proof {
            if self.wf() {
                lemma_scan_mat_bound(
                    self.v().spheres,
                    ray.v(),
                    t_min as int,
                    t_max as int,
                    0,
                    Option::None,
                    self.materials@.len() as int,
                );
            }
        }
        r
    }
}

fn scan_go(
    spheres: &Vec<Sphere>,
    ray: &Ray,
    t_min: i64,
    t_max: i64,
    i: usize,
    best: Option<HitRecord>,
) -> (r: Option<HitRecord>)
    requires
        i <= spheres@.len(),
    ensures
        opt_hit_v(r) == scan(
            spheres@.map_values(|s: Sphere| s.v()),
            ray.v(),
            t_min as int,
            t_max as int,
            i as nat,
            opt_hit_v(best),
        ),
    decreases spheres@.len() - i,
{
    if i == spheres.len() {
        best
    } else {
        let limit: i64 = match &best {
            Some(b) => b.t,
            None => t_max,
        };
        let cur: Option<HitRecord> = spheres[i].hit(ray, t_min, limit);
        let nb: Option<HitRecord> = match cur {
            Some(_) => cur,
            None => best,
        };
        scan_go(spheres, ray, t_min, t_max, i + 1, nb)
    }
}

} // verus!
