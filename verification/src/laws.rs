//! The library's laws: properties of the renderer proved once and for all,
//! over the same specification functions its contracts use.

use vstd::prelude::*;
use crate::fx::{
    lemma_clip_bounds, lemma_clip_mono, lemma_isqrt_unique, lemma_sadd_neg, lemma_smul_comm,
    lemma_smul_neg_right, lemma_square_nonneg, lemma_tdiv_mono, s_add, s_div, s_mul, s_neg,
    s_sqrt, s_sub, tdiv, SCALE,
};
use crate::hittable::{mk_hit, sp_sphere_hit, sphere_disc, HitV, SphereV};
use crate::material::{color_wf, material_wf, sp_scatter, MaterialV};
use crate::camera::CameraV;
use crate::ray::{ray_at, RayV};
use crate::render::{image_go, row_go, sp_image, sp_pixel, sp_quant, sp_ray_color, sp_row, RenderConfig};
use crate::rng::row_seed_of;
use crate::scene::{scan, sp_scene_hit, SceneV};
use crate::vec3::{
    lemma_divs_bounded, sv_bounded, sv_divs, sv_dot, sv_len_sq, sv_neg, sv_sub, v3, V3,
};

verus! {

/// The dot product is commutative.
pub proof fn lemma_dot_comm(a: V3, b: V3)
    ensures
        sv_dot(a, b) == sv_dot(b, a),
{
    lemma_smul_comm(a.x, b.x);
    lemma_smul_comm(a.y, b.y);
    lemma_smul_comm(a.z, b.z);
}

/// Negating a bounded right argument negates the dot product.
pub proof fn lemma_dot_neg_right(a: V3, b: V3)
    requires
        sv_bounded(b),
    ensures
        sv_dot(a, sv_neg(b)) == s_neg(sv_dot(a, b)),
{
    lemma_smul_neg_right(a.x, b.x);
    lemma_smul_neg_right(a.y, b.y);
    lemma_smul_neg_right(a.z, b.z);
    let m1 = s_mul(a.x, b.x);
    let m2 = s_mul(a.y, b.y);
    let m3 = s_mul(a.z, b.z);
    lemma_clip_bounds(tdiv(a.x * b.x, SCALE as int));
    lemma_clip_bounds(tdiv(a.y * b.y, SCALE as int));
    lemma_clip_bounds(tdiv(a.z * b.z, SCALE as int));
    lemma_sadd_neg(m1, m2);
    lemma_clip_bounds(m1 + m2);
    lemma_sadd_neg(s_add(m1, m2), m3);
}

/// Any record built for a hit has its normal oriented against the ray.
pub proof fn lemma_mk_hit_normal(s: SphereV, r: RayV, t: int)
    ensures
        sv_dot(mk_hit(s, r, t).normal, r.dir) <= 0,
        sv_dot(r.dir, mk_hit(s, r, t).normal) <= 0,
{
    let p = ray_at(r, t);
    let outward = sv_divs(sv_sub(p, s.center), s.radius);
    lemma_divs_bounded(sv_sub(p, s.center), s.radius);
    let d = sv_dot(r.dir, outward);
    if d < 0 {
        lemma_dot_comm(outward, r.dir);
    } else {
        lemma_dot_comm(sv_neg(outward), r.dir);
        lemma_dot_neg_right(r.dir, outward);
    }
}

/// Normal orientation: every accepted hit's stored normal opposes the
/// incoming ray, front face or back face alike.
pub proof fn lemma_hit_normal_opposes(s: SphereV, r: RayV, t_min: int, t_max: int)
    ensures
        match sp_sphere_hit(s, r, t_min, t_max) {
            Option::Some(h) => sv_dot(h.normal, r.dir) <= 0 && sv_dot(r.dir, h.normal) <= 0,
            Option::None => true,
        },
{
    match sp_sphere_hit(s, r, t_min, t_max) {
        Option::Some(h) => {
            let oc = sv_sub(r.origin, s.center);
            let half_b = sv_dot(oc, r.dir);
            let a = crate::vec3::sv_len_sq(r.dir);
            let sq = s_sqrt(sphere_disc(s, r));
            let r1 = crate::fx::s_div(crate::fx::s_sub(s_neg(half_b), sq), a);
            let r2 = crate::fx::s_div(s_add(s_neg(half_b), sq), a);
            assert(h == mk_hit(s, r, r1) || h == mk_hit(s, r, r2));
            lemma_mk_hit_normal(s, r, r1);
            lemma_mk_hit_normal(s, r, r2);
        },
        Option::None => {},
    }
}

/// A negative discriminant admits no hit, whatever the query interval.
pub proof fn lemma_negative_disc_misses(s: SphereV, r: RayV, t_min: int, t_max: int)
    requires
        sphere_disc(s, r) < 0,
    ensures
        sp_sphere_hit(s, r, t_min, t_max) is None,
{
}

/// Every accepted hit parameter lies within the query interval.
pub proof fn lemma_hit_within_interval(s: SphereV, r: RayV, t_min: int, t_max: int)
    ensures
        match sp_sphere_hit(s, r, t_min, t_max) {
            Option::Some(h) => t_min <= h.t <= t_max,
            Option::None => true,
        },
{
}

/// A squared length is nonnegative.
pub proof fn lemma_len_sq_nonneg(a: V3)
    ensures
        sv_len_sq(a) >= 0,
{
    lemma_square_nonneg(a.x);
    lemma_square_nonneg(a.y);
    lemma_square_nonneg(a.z);
}

/// A saturating quotient by a nonnegative divisor is monotone in the dividend.
pub proof fn lemma_sdiv_mono(x: int, y: int, b: int)
    requires
        x <= y,
        b >= 0,
    ensures
        s_div(x, b) <= s_div(y, b),
{
    if b > 0 {
        lemma_tdiv_mono(x * (SCALE as int), y * (SCALE as int), b);
        lemma_clip_mono(tdiv(x * (SCALE as int), b), tdiv(y * (SCALE as int), b));
    }
}

/// The parameter of a hit, 0 for a miss.
pub open spec fn hit_time(o: Option<HitV>) -> int {
    match o {
        Option::Some(h) => h.t,
        Option::None => 0,
    }
}

/// The smaller quadratic root never exceeds the larger.
pub proof fn lemma_sphere_roots_ordered(s: SphereV, r: RayV)
    ensures
        ({
            let a = sv_len_sq(r.dir);
            let half_b = sv_dot(sv_sub(r.origin, s.center), r.dir);
            let sq = s_sqrt(sphere_disc(s, r));
            s_div(s_sub(s_neg(half_b), sq), a) <= s_div(s_add(s_neg(half_b), sq), a)
        }),
{
    let a = sv_len_sq(r.dir);
    let half_b = sv_dot(sv_sub(r.origin, s.center), r.dir);
    let sq = s_sqrt(sphere_disc(s, r));
    let nh = s_neg(half_b);
    lemma_len_sq_nonneg(r.dir);
    assert(sq >= 0);
    lemma_clip_mono(nh - sq, nh + sq);
    lemma_sdiv_mono(s_sub(nh, sq), s_add(nh, sq), a);
}

/// Shrinking the upper bound of the query interval: a hit found in the
/// smaller interval is the hit in the larger one, and a member missed in the
/// smaller interval can only be hit beyond its bound in the larger one.
pub proof fn lemma_sphere_hit_shrink(s: SphereV, r: RayV, t_min: int, t1: int, t2: int)
    requires
        t1 <= t2,
    ensures
        sp_sphere_hit(s, r, t_min, t1) is Some ==> sp_sphere_hit(s, r, t_min, t2)
            == sp_sphere_hit(s, r, t_min, t1),
        sp_sphere_hit(s, r, t_min, t1) is None && sp_sphere_hit(s, r, t_min, t2) is Some
            ==> hit_time(sp_sphere_hit(s, r, t_min, t2)) > t1,
{
    lemma_sphere_roots_ordered(s, r);
}

/// The scan over members from index `i` with starting candidate `best`
/// yields the nearest full-interval hit among the remaining members and the
/// candidate.
pub proof fn lemma_scan_nearest(
    spheres: Seq<SphereV>,
    r: RayV,
    t_min: int,
    t_max: int,
    i: nat,
    best: Option<HitV>,
)
    requires
        best is Some ==> t_min <= hit_time(best) <= t_max,
    ensures
        ({
            let res = scan(spheres, r, t_min, t_max, i, best);
            &&& res is Some ==> t_min <= hit_time(res) <= t_max
            &&& res is None ==> best is None
            &&& best is Some ==> res is Some && hit_time(res) <= hit_time(best)
            &&& forall|j: int|
                i <= j < spheres.len() && #[trigger] sp_sphere_hit(
                    spheres[j],
                    r,
                    t_min,
                    t_max,
                ) is Some ==> res is Some && hit_time(res) <= hit_time(
                    sp_sphere_hit(spheres[j], r, t_min, t_max),
                )
            &&& res is Some ==> (best is Some && hit_time(best) == hit_time(res)) || exists|j: int|
                i <= j < spheres.len() && #[trigger] sp_sphere_hit(
                    spheres[j],
                    r,
                    t_min,
                    t_max,
                ) is Some && hit_time(sp_sphere_hit(spheres[j], r, t_min, t_max)) == hit_time(res)
        }),
    decreases spheres.len() - i,
{
    if i >= spheres.len() {
    } else {
        let limit = match best {
            Option::Some(b) => b.t,
            Option::None => t_max,
        };
        let cur = sp_sphere_hit(spheres[i as int], r, t_min, limit);
        let nb = match cur {
            Option::Some(_) => cur,
            Option::None => best,
        };
        lemma_hit_within_interval(spheres[i as int], r, t_min, limit);
        lemma_hit_within_interval(spheres[i as int], r, t_min, t_max);
        lemma_sphere_hit_shrink(spheres[i as int], r, t_min, limit, t_max);
        lemma_scan_nearest(spheres, r, t_min, t_max, (i + 1) as nat, nb);
        let res = scan(spheres, r, t_min, t_max, i, best);
        assert(res == scan(spheres, r, t_min, t_max, (i + 1) as nat, nb));
        if cur is Some {
            assert(sp_sphere_hit(spheres[i as int], r, t_min, t_max) == cur);
        }
    }
}

/// Scene nearest-hit: the aggregate's reported parameter is the minimum
/// over all members' hits within the query interval, and the aggregate
/// misses exactly when every member does.
pub proof fn lemma_scene_nearest_hit(sc: SceneV, r: RayV, t_min: int, t_max: int)
    ensures
        match sp_scene_hit(sc, r, t_min, t_max) {
            Option::Some(h) => {
                &&& forall|j: int|
                    0 <= j < sc.spheres.len() && #[trigger] sp_sphere_hit(
                        sc.spheres[j],
                        r,
                        t_min,
                        t_max,
                    ) is Some ==> h.t <= hit_time(sp_sphere_hit(sc.spheres[j], r, t_min, t_max))
                &&& exists|j: int|
                    0 <= j < sc.spheres.len() && #[trigger] sp_sphere_hit(
                        sc.spheres[j],
                        r,
                        t_min,
                        t_max,
                    ) is Some && hit_time(sp_sphere_hit(sc.spheres[j], r, t_min, t_max)) == h.t
            },
            Option::None => forall|j: int|
                0 <= j < sc.spheres.len() ==> #[trigger] sp_sphere_hit(
                    sc.spheres[j],
                    r,
                    t_min,
                    t_max,
                ) is None,
        },
{
    lemma_scan_nearest(sc.spheres, r, t_min, t_max, 0, Option::None);
}

/// Material energy conservation: a Lambertian or metal scatter attenuates
/// by the albedo, whose components lie in `[0, 1]`; a dielectric scatter
/// attenuates by exactly `(1, 1, 1)`.
pub proof fn lemma_scatter_energy(m: MaterialV, r: RayV, h: HitV, s: u64)
    requires
        material_wf(m),
    ensures
        !(m is Metal) ==> sp_scatter(m, r, h, s).0 is Some,
        match sp_scatter(m, r, h, s).0 {
            Option::Some(res) => match m {
                MaterialV::Lambertian { albedo } => res.0 == albedo && color_wf(res.0),
                MaterialV::Metal { albedo, fuzz } => res.0 == albedo && color_wf(res.0),
                MaterialV::Dielectric { ir } => res.0 == v3(
                    SCALE as int,
                    SCALE as int,
                    SCALE as int,
                ),
            },
            Option::None => true,
        },
{
}

/// Recursion termination: with a spent depth budget the gathered color is
/// pure black and the random state is untouched, whatever the ray or scene.
pub proof fn lemma_ray_color_depth_zero(sc: SceneV, r: RayV, s: u64)
    ensures
        sp_ray_color(sc, r, 0, s) == (v3(0, 0, 0), s),
{
}

/// Quantization boundaries: component 0 maps to 0, component 1 maps to 255.
pub proof fn lemma_quantize_boundaries()
    ensures
        sp_quant(0) == 0,
        sp_quant(SCALE as int) == 255,
{
    assert(s_sqrt(0) == 0);
    vstd::arithmetic::div_mod::lemma_fundamental_div_mod_converse_div(0, 65536, 0, 0);
    assert(sp_quant(0) == 0);

    assert(65536 * 65536 == 4294967296) by (nonlinear_arith);
    assert(65536nat * 65536nat <= 4294967296nat) by (nonlinear_arith);
    assert(4294967296nat < 65537nat * 65537nat) by (nonlinear_arith);
    lemma_isqrt_unique(4294967296nat, 65536nat);
    assert(s_sqrt(SCALE as int) == 65536);
    assert(65470 * 256 == 16760320) by (nonlinear_arith);
    assert(16760320 == 255 * 65536 + 48640) by (nonlinear_arith);
    vstd::arithmetic::div_mod::lemma_fundamental_div_mod_converse_div(16760320, 65536, 255, 48640);
    assert(tdiv((65470 * 256) as int, SCALE as int) == 255);
}

/// Length of a row under construction.
pub proof fn lemma_row_go_len(
    sc: SceneV,
    cam: CameraV,
    cfg: RenderConfig,
    y: int,
    x: nat,
    acc: Seq<V3>,
    s: u64,
)
    requires
        x <= cfg.width,
    ensures
        row_go(sc, cam, cfg, y, x, acc, s).0.len() == acc.len() + cfg.width - x,
    decreases cfg.width - x,
{
    if x >= cfg.width {
    } else {
        let pair = sp_pixel(sc, cam, cfg, x as int, y, s);
        lemma_row_go_len(sc, cam, cfg, y, (x + 1) as nat, acc.push(pair.0), pair.1);
    }
}

/// A rendered row holds one pixel per column.
pub proof fn lemma_row_len(sc: SceneV, cam: CameraV, cfg: RenderConfig, y: int)
    ensures
        sp_row(sc, cam, cfg, y).len() == cfg.width,
{
    lemma_row_go_len(sc, cam, cfg, y, 0, Seq::empty(), row_seed_of(cfg.seed, y as u64));
}

/// Segment of the assembly that holds the row appended for index `j`.
pub open spec fn go_slice(
    sc: SceneV,
    cam: CameraV,
    cfg: RenderConfig,
    k: nat,
    acc: Seq<V3>,
    j: int,
) -> Seq<V3> {
    image_go(sc, cam, cfg, k, acc).subrange(
        acc.len() + (j - k) * cfg.width,
        acc.len() + (j - k + 1) * cfg.width,
    )
}

/// Image assembly appends whole rows: what is already assembled stays, and
/// each later row occupies its own contiguous segment.
#[verifier::rlimit(100)]
#[verifier::spinoff_prover]
pub proof fn lemma_image_go_slices(sc: SceneV, cam: CameraV, cfg: RenderConfig, k: nat, acc: Seq<V3>)
    requires
        k <= cfg.height,
    ensures
        image_go(sc, cam, cfg, k, acc).len() == acc.len() + (cfg.height - k) * cfg.width,
        image_go(sc, cam, cfg, k, acc).subrange(0, acc.len() as int) == acc,
        forall|j: int|
            k <= j < cfg.height ==> #[trigger] go_slice(sc, cam, cfg, k, acc, j) == sp_row(
                sc,
                cam,
                cfg,
                cfg.height - 1 - j,
            ),
    decreases cfg.height - k,
{
    let img = image_go(sc, cam, cfg, k, acc);
    if k >= cfg.height {
        assert((cfg.height - k) * cfg.width == 0) by (nonlinear_arith)
            requires
                k >= cfg.height,
                k <= cfg.height,
        ;
        assert(img.subrange(0, acc.len() as int) =~= acc);
    } else {
        let row = sp_row(sc, cam, cfg, cfg.height - 1 - k);
        lemma_row_len(sc, cam, cfg, cfg.height - 1 - k);
        let acc2 = acc + row;
        lemma_image_go_slices(sc, cam, cfg, (k + 1) as nat, acc2);
        assert(img == image_go(sc, cam, cfg, (k + 1) as nat, acc2));
        assert((cfg.height - k) * cfg.width == cfg.width + (cfg.height - (k + 1)) * cfg.width)
            by (nonlinear_arith);
        assert(img.subrange(0, acc2.len() as int) == acc2);
        assert(img.subrange(0, acc.len() as int) =~= acc);
        assert forall|j: int| k <= j < cfg.height implies #[trigger] go_slice(
            sc,
            cam,
            cfg,
            k,
            acc,
            j,
        ) == sp_row(sc, cam, cfg, cfg.height - 1 - j) by {
            if j == k {
                assert((j - k) * cfg.width == 0) by (nonlinear_arith)
                    requires
                        j == k,
                ;
                assert((j - k + 1) * cfg.width == cfg.width) by (nonlinear_arith)
                    requires
                        j == k,
                ;
                assert((cfg.height - (k + 1)) * cfg.width >= 0) by (nonlinear_arith)
                    requires
                        k + 1 <= cfg.height,
                ;
                assert forall|idx: int| 0 <= idx < cfg.width implies img[acc.len() + idx] == row[idx] by {
                    assert(img.subrange(0, acc2.len() as int)[acc.len() + idx] == acc2[acc.len()
                        + idx]);
                }
                assert(img.subrange(
                    acc.len() as int,
                    acc.len() + cfg.width,
                ) =~= sp_row(sc, cam, cfg, cfg.height - 1 - j));
            } else {
                assert((j - k) * cfg.width == cfg.width + (j - (k + 1)) * cfg.width)
                    by (nonlinear_arith);
                assert((j - k + 1) * cfg.width == cfg.width + (j - (k + 1) + 1) * cfg.width)
                    by (nonlinear_arith);
                assert(go_slice(sc, cam, cfg, (k + 1) as nat, acc2, j) == sp_row(
                    sc,
                    cam,
                    cfg,
                    cfg.height - 1 - j,
                ));
            }
        }
    }
}

/// The `k`-th row-sized segment of the finished image, top row first.
pub open spec fn row_slice(sc: SceneV, cam: CameraV, cfg: RenderConfig, k: int) -> Seq<V3> {
    sp_image(sc, cam, cfg).subrange(k * cfg.width, (k + 1) * cfg.width)
}

/// Concurrency determinism: the image is exactly its rows in order, and each
/// row is a pure function of scene, camera, configuration and row index
/// alone — so any scheduling of row tasks assembles the same image.
pub proof fn lemma_image_is_rows(sc: SceneV, cam: CameraV, cfg: RenderConfig)
    ensures
        sp_image(sc, cam, cfg).len() == cfg.height * cfg.width,
        forall|k: int|
            0 <= k < cfg.height ==> #[trigger] row_slice(sc, cam, cfg, k) == sp_row(
                sc,
                cam,
                cfg,
                cfg.height - 1 - k,
            ),
{
    lemma_image_go_slices(sc, cam, cfg, 0, Seq::empty());
    assert(sp_image(sc, cam, cfg).len() == cfg.height * cfg.width) by (nonlinear_arith)
        requires
            sp_image(sc, cam, cfg).len() == 0 + (cfg.height - 0) * cfg.width,
    ;
    assert forall|k: int| 0 <= k < cfg.height implies #[trigger] row_slice(sc, cam, cfg, k)
        == sp_row(sc, cam, cfg, cfg.height - 1 - k) by {
        assert((k - 0) * cfg.width == k * cfg.width);
        assert((k - 0 + 1) * cfg.width == (k + 1) * cfg.width);
        assert(go_slice(sc, cam, cfg, 0, Seq::<V3>::empty(), k) == sp_row(
            sc,
            cam,
            cfg,
            cfg.height - 1 - k,
        ));
        assert(row_slice(sc, cam, cfg, k) =~= go_slice(sc, cam, cfg, 0, Seq::<V3>::empty(), k));
    }
}

} // verus!
