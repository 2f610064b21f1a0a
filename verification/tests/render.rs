use raytracer::fx::SCALE;
use raytracer::material::{
    BasicMaterial, CheckerMaterial, Material, Texture, TexturedMaterialWithNormal,
};
use raytracer::rendering::{raytrace, render_row, render_scene};
use raytracer::rng::Rng;
use raytracer::scene::{Cam, OptimizedScene, Scene};
use raytracer::shapes::{Plane, Shape, Sphere};
use raytracer::structures::{Light, Ray};
use raytracer::vec::{Quat, Vec2, Vec3};

fn white_diffuse() -> Material {
    // A pure-diffuse white material with a small ambient term.
    Material::Basic(BasicMaterial::new(
        Vec3::new(255 * SCALE, 255 * SCALE, 255 * SCALE),
        SCALE / 10,
        SCALE,
        0,
        0,
        0,
        0,
        SCALE,
    ))
}

fn mirror() -> Material {
    Material::Basic(BasicMaterial::new(
        Vec3::new(255 * SCALE, 255 * SCALE, 255 * SCALE),
        0,
        0,
        0,
        SCALE,
        0,
        0,
        SCALE,
    ))
}

fn brightness(c: &Vec3) -> i64 {
    c.x + c.y + c.z
}

fn sphere_and_light_scene() -> OptimizedScene {
    let cam = Cam::new(SCALE, 39322);
    let mut scene = Scene::new(SCALE, cam);
    scene.add_light(Light::new(
        Vec3::new(5 * SCALE, 5 * SCALE, 5 * SCALE),
        Vec3::new(255 * SCALE, 255 * SCALE, 255 * SCALE),
    ));
    scene.add_shape(Shape::Sphere(Sphere::new(
        Vec3::new(0, 0, 0),
        SCALE / 2,
        white_diffuse(),
        Quat::identity(),
    )));
    scene.optimize()
}

#[test]
fn empty_scene_renders_black() {
    let cam = Cam::new(SCALE, 39322);
    let mut scene = Scene::new(SCALE, cam);
    scene.add_light(Light::new(
        Vec3::new(5 * SCALE, 5 * SCALE, 5 * SCALE),
        Vec3::new(255 * SCALE, 255 * SCALE, 255 * SCALE),
    ));
    let optimized = scene.optimize();
    let seed = [7u8; 32];
    let pixels = render_scene(&optimized, 4, 4, 1, 4, &seed);
    for row in &pixels {
        for c in row {
            assert_eq!(*c, Vec3::new(0, 0, 0));
        }
    }
    // Multiple samples draw jitter but still find nothing to light.
    let sampled = render_scene(&optimized, 2, 2, 4, 4, &seed);
    for row in &sampled {
        for c in row {
            assert_eq!(*c, Vec3::new(0, 0, 0));
        }
    }
}

#[test]
fn depth_budget_exhausts_between_parallel_mirrors() {
    // Two parallel mirrors facing each other; a ray bouncing between
    // them terminates after exactly the bounce budget at every depth.
    let cam = Cam::new(SCALE, 39322);
    let mut scene = Scene::new(SCALE, cam);
    scene.add_shape(Shape::Plane(Plane::new(
        Vec3::new(0, 0, 2 * SCALE),
        Vec3::new(0, 0, -SCALE),
        mirror(),
    )));
    scene.add_shape(Shape::Plane(Plane::new(
        Vec3::new(0, 0, -2 * SCALE),
        Vec3::new(0, 0, SCALE),
        mirror(),
    )));
    let optimized = scene.optimize();
    let ray = Ray::new(Vec3::new(0, 0, 0), Vec3::new(0, 0, SCALE));
    let seed = [3u8; 32];
    for depth_limit in [0u32, 1, 2, 10, 50] {
        let mut rng = Rng::from_seed(&seed);
        let c = raytrace(&ray, &optimized, depth_limit, 0, &mut rng);
        // Mirrors emit nothing of their own, so whatever the budget the
        // bounced radiance is black -- and the recursion returned.
        assert_eq!(c, Vec3::new(0, 0, 0));
    }
    // An exhausted budget contributes zero radiance immediately.
    let mut rng = Rng::from_seed(&seed);
    assert_eq!(raytrace(&ray, &optimized, 5, 5, &mut rng), Vec3::new(0, 0, 0));
}

#[test]
fn single_sample_render_ignores_seed() {
    let scene = sphere_and_light_scene();
    let a = render_scene(&scene, 8, 8, 1, 3, &[0u8; 32]);
    let b = render_scene(&scene, 8, 8, 1, 3, &[255u8; 32]);
    assert_eq!(a, b);
}

#[test]
fn render_is_deterministic_and_rowwise() {
    let scene = sphere_and_light_scene();
    let seed = [9u8; 32];
    let first = render_scene(&scene, 6, 6, 4, 3, &seed);
    let second = render_scene(&scene, 6, 6, 4, 3, &seed);
    assert_eq!(first, second);
    // Rows recomputed independently, here in reverse order, assemble to
    // the identical image: what a parallel scheduler relies on.
    let mut rows: Vec<Vec<Vec3>> = Vec::new();
    for y in (0..6usize).rev() {
        rows.push(render_row(&scene, 6, 6, 4, 3, &seed, y));
    }
    rows.reverse();
    assert_eq!(first, rows);
}

#[test]
fn lit_sphere_center_pixel() {
    let scene = sphere_and_light_scene();
    let seed = [0u8; 32];
    let pixels = render_scene(&scene, 8, 8, 1, 3, &seed);
    // The center pixel hits the sphere head-on; with the light behind
    // the sphere the whole visible hemisphere is ambient-lit, so the
    // ambient-plus-diffuse contribution is positive.
    let center = &pixels[4][4];
    assert!(brightness(center) > 0);
    // Pixels that miss the sphere stay black.
    let corner = &pixels[0][0];
    assert_eq!(brightness(corner), 0);
}

#[test]
fn lit_sphere_brightness_falls_off_from_light() {
    // The same sphere with the light on the camera side: brightness
    // strictly decreases for surface points turned farther from the
    // light-facing hemisphere.
    let cam = Cam::new(SCALE, 39322);
    let mut scene = Scene::new(SCALE, cam);
    scene.add_light(Light::new(
        Vec3::new(5 * SCALE, 5 * SCALE, -5 * SCALE),
        Vec3::new(255 * SCALE, 255 * SCALE, 255 * SCALE),
    ));
    scene.add_shape(Shape::Sphere(Sphere::new(
        Vec3::new(0, 0, 0),
        SCALE / 2,
        white_diffuse(),
        Quat::identity(),
    )));
    let seed = [0u8; 32];
    let pixels = render_scene(&scene.optimize(), 8, 8, 1, 3, &seed);
    let toward = &pixels[3][5];
    let center = &pixels[4][4];
    let away = &pixels[5][3];
    assert!(brightness(toward) > brightness(center));
    assert!(brightness(center) > brightness(away));
    assert!(brightness(away) > 0);
}

#[test]
fn raycast_marks_only_boxes_on_the_ray() {
    let cam = Cam::new(SCALE, 39322);
    let mut scene = Scene::new(SCALE, cam);
    scene.add_shape(Shape::Sphere(Sphere::new(
        Vec3::new(0, 0, 3 * SCALE),
        SCALE / 2,
        white_diffuse(),
        Quat::identity(),
    )));
    scene.add_shape(Shape::Sphere(Sphere::new(
        Vec3::new(10 * SCALE, 0, 3 * SCALE),
        SCALE / 2,
        white_diffuse(),
        Quat::identity(),
    )));
    let optimized = scene.optimize();
    let ray = Ray::new(Vec3::new(0, 0, -SCALE), Vec3::new(0, 0, SCALE));
    let mask = optimized.raycast(&ray);
    assert_eq!(mask, vec![true, false]);
}

#[test]
fn checkered_plane_shows_both_tiles() {
    let cam = Cam::new(SCALE, 39322);
    let mut scene = Scene::new(SCALE, cam);
    let checker = CheckerMaterial::new(
        Vec3::new(255 * SCALE, 0, 0),
        Vec3::new(0, 255 * SCALE, 0),
        SCALE,
        BasicMaterial::new(Vec3::new(0, 0, 0), SCALE / 2, 0, 0, 0, 0, 0, SCALE),
    );
    scene.add_shape(Shape::Plane(Plane::new(
        Vec3::new(0, 0, 4 * SCALE),
        Vec3::new(0, 0, -SCALE),
        Material::Checker(checker),
    )));
    let seed = [0u8; 32];
    let pixels = render_scene(&scene.optimize(), 8, 8, 1, 2, &seed);
    let mut saw_red = false;
    let mut saw_green = false;
    for row in &pixels {
        for c in row {
            if c.x > 0 && c.y == 0 {
                saw_red = true;
            }
            if c.y > 0 && c.x == 0 {
                saw_green = true;
            }
        }
    }
    assert!(saw_red && saw_green);
}

#[test]
fn camera_look_at_rebuilds_basis() {
    let mut cam = Cam::new(SCALE, 39322);
    cam.pos = Vec3::new(0, 0, -2 * SCALE);
    cam.look_at(Vec3::new(0, 0, 0));
    assert_eq!(cam.dir, Vec3::new(0, 0, SCALE));
    assert_eq!(cam.right, Vec3::new(-SCALE, 0, 0));
    assert_eq!(cam.up, Vec3::new(0, SCALE, 0));
}

#[test]
fn rng_streams_are_reproducible() {
    let mut a = Rng::from_seed(&[42u8; 32]);
    let mut b = Rng::from_seed(&[42u8; 32]);
    let mut c = Rng::from_seed(&[43u8; 32]);
    let xs: Vec<u64> = (0..8).map(|_| a.next_u64()).collect();
    let ys: Vec<u64> = (0..8).map(|_| b.next_u64()).collect();
    let zs: Vec<u64> = (0..8).map(|_| c.next_u64()).collect();
    assert_eq!(xs, ys);
    assert_ne!(xs, zs);
    for _ in 0..64 {
        let v = a.next_symmetric();
        assert!((-SCALE..SCALE).contains(&v));
    }
}

#[test]
fn refractive_sphere_bends_light_without_crashing() {
    // A glass-like sphere in front of a lit backdrop: the render runs to
    // completion and the center picks up refracted radiance.
    let cam = Cam::new(SCALE, 39322);
    let mut scene = Scene::new(SCALE, cam);
    scene.add_light(Light::new(
        Vec3::new(0, 0, -5 * SCALE),
        Vec3::new(255 * SCALE, 255 * SCALE, 255 * SCALE),
    ));
    let glass = Material::Basic(BasicMaterial::new(
        Vec3::new(255 * SCALE, 255 * SCALE, 255 * SCALE),
        0,
        0,
        0,
        0,
        0,
        SCALE,
        3 * SCALE / 2,
    ));
    scene.add_shape(Shape::Sphere(Sphere::new(
        Vec3::new(0, 0, 0),
        SCALE / 2,
        glass,
        Quat::identity(),
    )));
    scene.add_shape(Shape::Plane(Plane::new(
        Vec3::new(0, 0, 4 * SCALE),
        Vec3::new(0, 0, -SCALE),
        white_diffuse(),
    )));
    let seed = [1u8; 32];
    let pixels = render_scene(&scene.optimize(), 4, 4, 1, 4, &seed);
    let total: i64 = pixels.iter().flatten().map(brightness).sum();
    assert!(total > 0);
}

#[test]
fn normal_mapped_sphere_renders() {
    // A sphere with a base texture and a normal map exercises the
    // tangent-space perturbation branch of the integrator.
    let cam = Cam::new(SCALE, 39322);
    let mut scene = Scene::new(SCALE, cam);
    scene.add_light(Light::new(
        Vec3::new(5 * SCALE, 5 * SCALE, -5 * SCALE),
        Vec3::new(255 * SCALE, 255 * SCALE, 255 * SCALE),
    ));
    let base = Texture::new(
        2,
        2,
        vec![
            Vec3::new(255 * SCALE, 0, 0),
            Vec3::new(0, 255 * SCALE, 0),
            Vec3::new(0, 0, 255 * SCALE),
            Vec3::new(255 * SCALE, 255 * SCALE, 0),
        ],
    );
    // A byte-range normal map pointing mostly along the blue axis.
    let half = 128 * SCALE;
    let full = 255 * SCALE;
    let normal_map = Texture::new(
        2,
        2,
        vec![
            Vec3::new(half, half, full),
            Vec3::new(half, half, full),
            Vec3::new(half, half, full),
            Vec3::new(half, half, full),
        ],
    );
    let material = TexturedMaterialWithNormal::new(
        base,
        normal_map,
        Vec2::new(SCALE, SCALE),
        true,
        SCALE / 100,
        BasicMaterial::new(Vec3::new(0, 0, 0), SCALE / 5, SCALE, 0, 0, 0, 0, SCALE),
    );
    scene.add_shape(Shape::Sphere(Sphere::new(
        Vec3::new(0, 0, 0),
        SCALE / 2,
        Material::TexturedWithNormal(material),
        Quat::identity(),
    )));
    let seed = [0u8; 32];
    let pixels = render_scene(&scene.optimize(), 4, 4, 1, 2, &seed);
    let total: i64 = pixels.iter().flatten().map(brightness).sum();
    assert!(total > 0);
}

#[test]
fn rough_mirror_is_deterministic_given_seed() {
    // A rough reflector draws scatter directions from the row generator;
    // the render is still a pure function of its inputs.
    let cam = Cam::new(SCALE, 39322);
    let mut scene = Scene::new(SCALE, cam);
    scene.add_light(Light::new(
        Vec3::new(0, 5 * SCALE, -5 * SCALE),
        Vec3::new(255 * SCALE, 255 * SCALE, 255 * SCALE),
    ));
    let rough_mirror = Material::Basic(BasicMaterial::new(
        Vec3::new(255 * SCALE, 255 * SCALE, 255 * SCALE),
        SCALE / 20,
        SCALE / 4,
        0,
        SCALE,
        SCALE / 2,
        0,
        SCALE,
    ));
    scene.add_shape(Shape::Sphere(Sphere::new(
        Vec3::new(0, 0, 0),
        SCALE / 2,
        rough_mirror,
        Quat::identity(),
    )));
    scene.add_shape(Shape::Plane(Plane::new(
        Vec3::new(0, -SCALE, 0),
        Vec3::new(0, SCALE, 0),
        white_diffuse(),
    )));
    let optimized = scene.optimize();
    let seed = [5u8; 32];
    let a = render_scene(&optimized, 4, 4, 2, 3, &seed);
    let b = render_scene(&optimized, 4, 4, 2, 3, &seed);
    assert_eq!(a, b);
    let total: i64 = a.iter().flatten().map(brightness).sum();
    assert!(total > 0);
}
