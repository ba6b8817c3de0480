//! The render pipeline: recursive color evaluation, per-pixel sampling,
//! per-row rendering, whole-image assembly, and gamma quantization.
//!
//! Each image row draws from its own random stream, seeded from the master
//! seed and the row index alone, so every row — and the whole image — is a
//! pure function of scene, camera, configuration and seed, however the rows
//! are scheduled across threads.

use vstd::prelude::*;
use crate::camera::{sp_get_ray, Camera, CameraV};
use crate::fx::{fx_add, fx_div, fx_mul, fx_sqrt, fx_sub, s_add, s_div, s_mul, s_sqrt, s_sub, tdiv, MAXV, SCALE};
use crate::material::{scatter, sp_scatter, Material};
use crate::ray::{Ray, RayV};
use crate::rng::{row_seed_of, step_state, unit_of, Rng};
use crate::scene::{sp_scene_hit, Scene, SceneV};
use crate::vec3::{sv_add, sv_cmul, sv_divs, sv_scale, sv_unit, v3, V3, Vec3};

verus! {

/// Lower bound of every hit query: keeps a scattered ray from re-hitting
/// its own origin surface (about 0.001 in fixed point).
pub const T_MIN_HIT: i64 = 66;

/// Upper bound of every hit query: the saturation bound stands in for infinity.
pub const T_MAX_HIT: i64 = MAXV;

/// The fixed-point value one half.
pub const HALF_FX: i64 = 32768;

/// Sky gradient horizon color: white.
pub const SKY_WHITE: i64 = 65536;

/// Sky gradient zenith red component (0.5).
pub const SKY_R: i64 = 32768;

/// Sky gradient zenith green component (0.7).
pub const SKY_G: i64 = 45875;

/// Sky gradient zenith blue component (1.0).
pub const SKY_B: i64 = 65536;

/// Clamp bound applied before 8-bit quantization (0.999 in fixed point).
pub const QCLAMP: i64 = 65470;

/// The background: a vertical gradient from white to sky blue, by the
/// normalized direction's vertical component mapped from [-1, 1] to [0, 1].
pub open spec fn sp_sky(r: RayV) -> V3 {
    let u = sv_unit(r.dir);
    let t = s_mul(HALF_FX as int, s_add(u.y, SCALE as int));
    sv_add(
        sv_scale(s_sub(SCALE as int, t), v3(SKY_WHITE as int, SKY_WHITE as int, SKY_WHITE as int)),
        sv_scale(t, v3(SKY_R as int, SKY_G as int, SKY_B as int)),
    )
}

/// The color a ray gathers: black once the depth budget is spent; otherwise
/// the nearest hit's scatter attenuates the scattered ray's color, an
/// absorbed ray is black, and a miss is the sky gradient. Returns the color
/// and the random state after the draws.
pub open spec fn sp_ray_color(sc: SceneV, r: RayV, depth: nat, s: u64) -> (V3, u64)
    decreases depth,
{
    if depth == 0 {
        (v3(0, 0, 0), s)
    } else {
        match sp_scene_hit(sc, r, T_MIN_HIT as int, T_MAX_HIT as int) {
            Option::None => (sp_sky(r), s),
            Option::Some(h) => {
                let (res, s1) = sp_scatter(sc.materials[h.mat], r, h, s);
                match res {
                    Option::None => (v3(0, 0, 0), s1),
                    Option::Some((att, scat)) => {
                        let (c, s2) = sp_ray_color(sc, scat, (depth - 1) as nat, s1);
                        (sv_cmul(att, c), s2)
                    },
                }
            },
        }
    }
}

/// The background gradient, executably.
pub fn sky_color(ray: &Ray) -> (c: Vec3)
    ensures
        c.v() == sp_sky(ray.v()),
{
    let u: Vec3 = ray.direction.unit();
    let t: i64 = fx_mul(HALF_FX, fx_add(u.y, SCALE));
    let white = Vec3::new(SKY_WHITE, SKY_WHITE, SKY_WHITE);
    let zenith = Vec3::new(SKY_R, SKY_G, SKY_B);
    white.scaled(fx_sub(SCALE, t)).plus(&zenith.scaled(t))
}

/// Recursive color evaluation against the scene, with the given depth budget.
pub fn ray_color(scene: &Scene, ray: &Ray, depth: usize, rng: &mut Rng) -> (c: Vec3)
    requires
        scene.wf(),
    ensures
        (c.v(), final(rng).state) == sp_ray_color(
            scene.v(),
            ray.v(),
            depth as nat,
            old(rng).state,
        ),
    decreases depth,
{
    if depth == 0 {
        return Vec3::zero();
    }
    match scene.hit(ray, T_MIN_HIT, T_MAX_HIT) {
        Some(rec) => {
            let m: Material = scene.materials[rec.mat];
            proof {
                assert(m.v() == scene.v().materials[rec.v().mat]);
            }
            match scatter(&m, ray, &rec, rng) {
                Some((att, scattered)) => {
                    let c: Vec3 = ray_color(scene, &scattered, depth - 1, rng);
                    att.compmul(&c)
                },
                None => Vec3::zero(),
            }
        },
        None => sky_color(ray),
    }
}

/// Image dimensions, sampling rate, recursion budget and master seed.
#[derive(Clone, Copy, PartialEq, Eq, Structural, Debug)]
pub struct RenderConfig {
    pub width: usize,
    pub height: usize,
    pub samples: usize,
    pub max_depth: usize,
    pub seed: u64,
}

impl RenderConfig {
    /// Dimensions that the fixed-point image-plane arithmetic accommodates.
    pub open spec fn wf(self) -> bool {
        2 <= self.width <= 16384 && 2 <= self.height <= 16384 && 1 <= self.samples <= 4096
    }

    /// Decide well-formedness of the configuration.
    pub fn check_wf(&self) -> (r: bool)
        ensures
            r == self.wf(),
    {
        2 <= self.width && self.width <= 16384 && 2 <= self.height && self.height <= 16384
            && 1 <= self.samples && self.samples <= 4096
    }
}

/// One sample of pixel `(x, y)`: jitter the image-plane coordinates with
/// two draws, cast the camera ray, and evaluate its color.
pub open spec fn sp_sample(
    sc: SceneV,
    cam: CameraV,
    cfg: RenderConfig,
    x: int,
    y: int,
    s: u64,
) -> (V3, u64) {
    let ju = unit_of(s);
    let s1 = step_state(s);
    let jv = unit_of(s1);
    let s2 = step_state(s1);
    let u = s_div(s_add(x * SCALE, ju), (cfg.width - 1) * SCALE);
    let v = s_div(s_add(y * SCALE, jv), (cfg.height - 1) * SCALE);
    let (r, s3) = sp_get_ray(cam, u, v, s2);
    sp_ray_color(sc, r, cfg.max_depth as nat, s3)
}

/// Sum of `k` further samples of pixel `(x, y)` on top of `acc`.
pub open spec fn samples_go(
    sc: SceneV,
    cam: CameraV,
    cfg: RenderConfig,
    x: int,
    y: int,
    k: nat,
    acc: V3,
    s: u64,
) -> (V3, u64)
    decreases k,
{
    if k == 0 {
        (acc, s)
    } else {
        let (c, s1) = sp_sample(sc, cam, cfg, x, y, s);
        samples_go(sc, cam, cfg, x, y, (k - 1) as nat, sv_add(acc, c), s1)
    }
}

/// The finished pixel `(x, y)`: all samples accumulated and averaged.
#[verifier::opaque]
pub open spec fn sp_pixel(
    sc: SceneV,
    cam: CameraV,
    cfg: RenderConfig,
    x: int,
    y: int,
    s: u64,
) -> (V3, u64) {
    let (sum, s1) = samples_go(sc, cam, cfg, x, y, cfg.samples as nat, v3(0, 0, 0), s);
    (sv_divs(sum, cfg.samples * SCALE), s1)
}

/// Pixels of row `y` from column `x` on, appended to `acc`.
pub open spec fn row_go(
    sc: SceneV,
    cam: CameraV,
    cfg: RenderConfig,
    y: int,
    x: nat,
    acc: Seq<V3>,
    s: u64,
) -> (Seq<V3>, u64)
    decreases cfg.width - x,
{
    if x >= cfg.width {
        (acc, s)
    } else {
        let (c, s1) = sp_pixel(sc, cam, cfg, x as int, y, s);
        row_go(sc, cam, cfg, y, (x + 1) as nat, acc.push(c), s1)
    }
}

/// The pixels of image row `y`, drawn from that row's own seeded stream.
pub open spec fn sp_row(sc: SceneV, cam: CameraV, cfg: RenderConfig, y: int) -> Seq<V3> {
    row_go(sc, cam, cfg, y, 0, Seq::empty(), row_seed_of(cfg.seed, y as u64)).0
}

/// Rows appended top-down: after `k` rows, the next is world row `height - 1 - k`.
pub open spec fn image_go(sc: SceneV, cam: CameraV, cfg: RenderConfig, k: nat, acc: Seq<V3>) -> Seq<
    V3,
>
    decreases cfg.height - k,
{
    if k >= cfg.height {
        acc
    } else {
        image_go(sc, cam, cfg, (k + 1) as nat, acc + sp_row(sc, cam, cfg, cfg.height - 1 - k))
    }
}

/// The whole image, row-major, top row first.
pub open spec fn sp_image(sc: SceneV, cam: CameraV, cfg: RenderConfig) -> Seq<V3> {
    image_go(sc, cam, cfg, 0, Seq::empty())
}

fn sample_once(scene: &Scene, cam: &Camera, cfg: &RenderConfig, x: usize, y: usize, rng: &mut Rng) -> (c: Vec3)
    requires
        scene.wf(),
        cfg.wf(),
        x < cfg.width,
        y < cfg.height,
    ensures
        (c.v(), final(rng).state) == sp_sample(
            scene.v(),
            cam.cv(),
            *cfg,
            x as int,
            y as int,
            old(rng).state,
        ),
{
    let ju: i64 = rng.next_unit();
    let jv: i64 = rng.next_unit();
    let u: i64 = fx_div(fx_add((x as i64) * SCALE, ju), ((cfg.width - 1) as i64) * SCALE);
    let v: i64 = fx_div(fx_add((y as i64) * SCALE, jv), ((cfg.height - 1) as i64) * SCALE);
    let r: Ray = cam.get_ray(u, v, rng);
    ray_color(scene, &r, cfg.max_depth, rng)
}

fn accumulate(
    scene: &Scene,
    cam: &Camera,
    cfg: &RenderConfig,
    x: usize,
    y: usize,
    k: usize,
    acc: Vec3,
    rng: &mut Rng,
) -> (c: Vec3)
    requires
        scene.wf(),
        cfg.wf(),
        x < cfg.width,
        y < cfg.height,
    ensures
        (c.v(), final(rng).state) == samples_go(
            scene.v(),
            cam.cv(),
            *cfg,
            x as int,
            y as int,
            k as nat,
            acc.v(),
            old(rng).state,
        ),
    decreases k,
{
    if k == 0 {
        acc
    } else {
        let s: Vec3 = sample_once(scene, cam, cfg, x, y, rng);
        accumulate(scene, cam, cfg, x, y, k - 1, acc.plus(&s), rng)
    }
}

/// The finished pixel `(x, y)`: `cfg.samples` jittered camera rays, averaged.
pub fn render_pixel(
    scene: &Scene,
    cam: &Camera,
    cfg: &RenderConfig,
    x: usize,
    y: usize,
    rng: &mut Rng,
) -> (c: Vec3)
    requires
        scene.wf(),
        cfg.wf(),
        x < cfg.width,
        y < cfg.height,
    ensures
        (c.v(), final(rng).state) == sp_pixel(
            scene.v(),
            cam.cv(),
            *cfg,
            x as int,
            y as int,
            old(rng).state,
        ),
{
    proof {
        reveal(sp_pixel);
    }
    let sum: Vec3 = accumulate(scene, cam, cfg, x, y, cfg.samples, Vec3::zero(), rng);
    sum.divided((cfg.samples as i64) * SCALE)
}

fn row_pixels(
    scene: &Scene,
    cam: &Camera,
    cfg: &RenderConfig,
    y: usize,
    x: usize,
    acc: Vec<Vec3>,
    rng: &mut Rng,
) -> (r: Vec<Vec3>)
    requires
        scene.wf(),
        cfg.wf(),
        y < cfg.height,
        x <= cfg.width,
    ensures
        (r@.map_values(|t: Vec3| t.v()), final(rng).state) == row_go(
            scene.v(),
            cam.cv(),
            *cfg,
            y as int,
            x as nat,
            acc@.map_values(|t: Vec3| t.v()),
            old(rng).state,
        ),
    decreases cfg.width - x,
{
    if x == cfg.width {
        acc
    } else {
        let c: Vec3 = render_pixel(scene, cam, cfg, x, y, rng);
        let mut acc2: Vec<Vec3> = acc;
        acc2.push(c);
        proof {
            assert(acc2@.map_values(|t: Vec3| t.v()) =~= acc@.map_values(|t: Vec3| t.v()).push(
                c.v(),
            ));
        }
        row_pixels(scene, cam, cfg, y, x + 1, acc2, rng)
    }
}

/// Render image row `y` on its own seeded random stream: the result depends
/// only on scene, camera, configuration and row index, never on the thread
/// or order it is computed in.
pub fn render_row(scene: &Scene, cam: &Camera, cfg: &RenderConfig, y: usize) -> (row: Vec<Vec3>)
    requires
        scene.wf(),
        cfg.wf(),
        y < cfg.height,
    ensures
        row@.map_values(|t: Vec3| t.v()) == sp_row(scene.v(), cam.cv(), *cfg, y as int),
{
    let mut rng = Rng::for_row(cfg.seed, y as u64);
    let acc: Vec<Vec3> = Vec::new();
    proof {
        assert(acc@.map_values(|t: Vec3| t.v()) =~= Seq::<V3>::empty());
    }
    row_pixels(scene, cam, cfg, y, 0, acc, &mut rng)
}

fn image_rows(scene: &Scene, cam: &Camera, cfg: &RenderConfig, k: usize, acc: Vec<Vec3>) -> (r: Vec<
    Vec3,
>)
    requires
        scene.wf(),
        cfg.wf(),
        k <= cfg.height,
    ensures
        r@.map_values(|t: Vec3| t.v()) == image_go(
            scene.v(),
            cam.cv(),
            *cfg,
            k as nat,
            acc@.map_values(|t: Vec3| t.v()),
        ),
    decreases cfg.height - k,
{
    if k == cfg.height {
        acc
    } else {
        let y: usize = cfg.height - 1 - k;
        let mut row: Vec<Vec3> = render_row(scene, cam, cfg, y);
        let ghost row_view = row@.map_values(|t: Vec3| t.v());
        let mut acc2: Vec<Vec3> = acc;
        acc2.append(&mut row);
        proof {
            assert(acc2@.map_values(|t: Vec3| t.v()) =~= acc@.map_values(|t: Vec3| t.v())
                + row_view);
        }
        image_rows(scene, cam, cfg, k + 1, acc2)
    }
}

/// Render the whole image, row-major with the top row first: the averaged
/// pixel colors, each component fixed point in `[0, 1]` before quantization.
pub fn render(scene: &Scene, cam: &Camera, cfg: &RenderConfig) -> (img: Vec<Vec3>)
    requires
        scene.wf(),
        cfg.wf(),
    ensures
        img@.map_values(|t: Vec3| t.v()) == sp_image(scene.v(), cam.cv(), *cfg),
{
    let acc: Vec<Vec3> = Vec::new();
    proof {
        assert(acc@.map_values(|t: Vec3| t.v()) =~= Seq::<V3>::empty());
    }
    image_rows(scene, cam, cfg, 0, acc)
}

/// Gamma-2 correction and 8-bit quantization of one averaged component:
/// `trunc(256 * clamp(sqrt(c), 0, QCLAMP))`.
pub open spec fn sp_quant(c: int) -> int {
    let s = s_sqrt(c);
    let cl = if s < 0 {
        0
    } else if s > QCLAMP as int {
        QCLAMP as int
    } else {
        s
    };
    tdiv(cl * 256, SCALE as int)
}

/// Quantize one averaged color component to 8 bits, with gamma-2 correction.
pub fn quantize(c: i64) -> (b: u8)
    ensures
        b as int == sp_quant(c as int),
{
    let s: i64 = fx_sqrt(c);
    let cl: i64 = if s > QCLAMP {
        QCLAMP
    } else {
        s
    };
    (((cl as u64) * 256) / (SCALE as u64)) as u8
}

/// Quantize a pixel to its three 8-bit channels.
pub fn quantize_color(c: &Vec3) -> (rgb: (u8, u8, u8))
    ensures
        rgb.0 as int == sp_quant(c.v().x),
        rgb.1 as int == sp_quant(c.v().y),
        rgb.2 as int == sp_quant(c.v().z),
{
    (quantize(c.x), quantize(c.y), quantize(c.z))
}

} // verus!
