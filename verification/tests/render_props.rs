//! Tests of the camera, the recursive color evaluation, quantization, and
//! whole-image rendering: determinism, row independence, and an end-to-end
//! scenario against recorded reference pixels.

use raytracer::camera::Camera;
use raytracer::fx::{MAXV, SCALE};
use raytracer::material::Material;
use raytracer::ray::Ray;
use raytracer::render::{quantize, quantize_color, ray_color, render, render_pixel, render_row, RenderConfig};
use raytracer::rng::Rng;
use raytracer::scene::Scene;
use raytracer::vec3::Vec3;

const S: i64 = SCALE;

fn ground_and_ball() -> Scene {
    let mut scene = Scene::new();
    let ground = scene.add_material(Material::Lambertian {
        albedo: Vec3::new(S / 2, S / 2, S / 2),
    });
    let ball = scene.add_material(Material::Lambertian {
        albedo: Vec3::new(4 * S / 10, 2 * S / 10, S / 10),
    });
    scene.add_sphere(Vec3::new(0, -1000 * S, 0), 1000 * S, ground);
    scene.add_sphere(Vec3::new(0, S, 0), S, ball);
    scene
}

fn downward_camera() -> Camera {
    Camera::new(
        Vec3::new(0, 5 * S, 0),
        Vec3::new(0, S, 0),
        Vec3::new(0, 0, S),
        90 * S,
        S,
        0,
        4 * S,
    )
}

#[test]
fn ray_color_at_depth_zero_is_black() {
    let scene = ground_and_ball();
    assert!(scene.check_wf());
    let ray = Ray::new(Vec3::new(0, 5 * S, 0), Vec3::new(0, -S, 0));
    let mut rng = Rng::new(99);
    let c = ray_color(&scene, &ray, 0, &mut rng);
    assert_eq!(c, Vec3::new(0, 0, 0));
    // the random state is untouched by a spent budget
    let mut other = Rng::new(99);
    assert_eq!(rng.next_u64(), other.next_u64());
}

#[test]
fn ray_color_miss_is_sky_gradient() {
    let scene = Scene::new();
    let ray = Ray::new(Vec3::new(0, 0, 0), Vec3::new(0, S, 0));
    let mut rng = Rng::new(1);
    // straight up: the gradient parameter is 1, giving pure sky blue
    let c = ray_color(&scene, &ray, 5, &mut rng);
    assert_eq!(c, Vec3::new(S / 2, 45875, S));
    // straight down: the parameter is 0, giving pure white
    let ray_down = Ray::new(Vec3::new(0, 0, 0), Vec3::new(0, -S, 0));
    let mut rng2 = Rng::new(1);
    let d = ray_color(&scene, &ray_down, 5, &mut rng2);
    assert_eq!(d, Vec3::new(S, S, S));
}

#[test]
fn quantize_boundaries_exact() {
    assert_eq!(quantize(0), 0);
    assert_eq!(quantize(S), 255);
    // the clamp bound itself also lands on 255
    assert_eq!(quantize(65470), 255);
    // gamma-2: a quarter maps to half of the range
    assert_eq!(quantize(S / 4), 128);
    // negative components are floored at black
    assert_eq!(quantize(-S), 0);
    let (r, g, b) = quantize_color(&Vec3::new(0, S / 4, S));
    assert_eq!((r, g, b), (0, 128, 255));
}

#[test]
fn camera_without_aperture_keeps_origin() {
    let cam = downward_camera();
    let mut rng = Rng::new(5);
    let ray = cam.get_ray(S / 2, S / 2, &mut rng);
    assert_eq!(ray.origin, Vec3::new(0, 5 * S, 0));
}

#[test]
fn render_is_deterministic() {
    let scene = ground_and_ball();
    let cam = downward_camera();
    let cfg = RenderConfig { width: 4, height: 3, samples: 2, max_depth: 3, seed: 77 };
    assert!(scene.check_wf() && cfg.check_wf());
    let a = render(&scene, &cam, &cfg);
    let b = render(&scene, &cam, &cfg);
    assert_eq!(a, b);
    assert_eq!(a.len(), 12);
}

#[test]
fn rows_rendered_separately_assemble_the_image() {
    let scene = ground_and_ball();
    let cam = downward_camera();
    let cfg = RenderConfig { width: 5, height: 4, samples: 2, max_depth: 4, seed: 123 };
    assert!(scene.check_wf() && cfg.check_wf());
    let whole = render(&scene, &cam, &cfg);
    // assemble rows computed independently, in reverse order of the image
    let mut rows: Vec<Vec<Vec3>> = Vec::new();
    for y in 0..cfg.height {
        rows.push(render_row(&scene, &cam, &cfg, y));
    }
    let mut assembled: Vec<Vec3> = Vec::new();
    for y in (0..cfg.height).rev() {
        assembled.extend(rows[y].iter().copied());
    }
    assert_eq!(whole, assembled);
}

#[test]
fn pixel_depends_only_on_its_own_stream() {
    let scene = ground_and_ball();
    let cam = downward_camera();
    let cfg = RenderConfig { width: 4, height: 4, samples: 1, max_depth: 2, seed: 9 };
    let mut r1 = Rng::for_row(cfg.seed, 2);
    let mut r2 = Rng::for_row(cfg.seed, 2);
    let p1 = render_pixel(&scene, &cam, &cfg, 1, 2, &mut r1);
    let p2 = render_pixel(&scene, &cam, &cfg, 1, 2, &mut r2);
    assert_eq!(p1, p2);
}

#[test]
fn ground_scene_matches_reference_pixels() {
    // One large ground sphere and one small diffuse ball, camera looking
    // straight down, one sample per pixel, depth 1: with the fixed seed the
    // image is fully deterministic and must match the recorded reference.
    let scene = ground_and_ball();
    let cam = downward_camera();
    let cfg = RenderConfig { width: 2, height: 2, samples: 1, max_depth: 1, seed: 2024 };
    assert!(scene.check_wf() && cfg.check_wf());
    let img = render(&scene, &cam, &cfg);
    let bytes: Vec<(u8, u8, u8)> = img.iter().map(quantize_color).collect();
    // at depth 1 every hit scatters into a spent budget: pure black everywhere
    assert_eq!(bytes, vec![(0, 0, 0), (0, 0, 0), (0, 0, 0), (0, 0, 0)]);
}

#[test]
fn bounced_scene_matches_reference_pixels() {
    // The same scene with one bounce of depth budget left after the first
    // hit: ground and ball colors reach the image, modulated by the sky.
    // Fully deterministic under the fixed seed; recorded reference values.
    let scene = ground_and_ball();
    let cam = downward_camera();
    let cfg = RenderConfig { width: 2, height: 2, samples: 1, max_depth: 2, seed: 2024 };
    let img = render(&scene, &cam, &cfg);
    let bytes: Vec<(u8, u8, u8)> = img.iter().map(quantize_color).collect();
    assert_eq!(
        bytes,
        vec![(132, 153, 181), (142, 159, 181), (135, 155, 181), (144, 160, 181)],
    );
}
