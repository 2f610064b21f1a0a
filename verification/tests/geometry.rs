use raytracer::fx::{fx_div, fx_emod, fx_fdiv, fx_mul, isqrt, FX_MAX, SCALE};
use raytracer::material::{
    sample_texture, BasicMaterial, CheckerMaterial, Material, Texture, TexturedMaterial,
};
use raytracer::shapes::{Plane, Quad, Shape, Sphere, Tri};
use raytracer::structures::{HitRecord, Light, Ray};
use raytracer::utils::atan2_fx;
use raytracer::vec::{Quat, Vec2, Vec3};

fn basic_gray() -> BasicMaterial {
    BasicMaterial::new(
        Vec3::new(100 * SCALE, 100 * SCALE, 100 * SCALE),
        6554,
        SCALE,
        0,
        0,
        0,
        0,
        SCALE,
    )
}

fn gray_material() -> Material {
    Material::Basic(basic_gray())
}

#[test]
fn fixed_point_ops() {
    assert_eq!(fx_mul(3 * SCALE, 2 * SCALE), 6 * SCALE);
    assert_eq!(fx_mul(-3 * SCALE, 2 * SCALE), -6 * SCALE);
    assert_eq!(fx_div(3 * SCALE, 2 * SCALE), 3 * SCALE / 2);
    assert_eq!(fx_div(-3 * SCALE, 2 * SCALE), -3 * SCALE / 2);
    // Truncation rounds toward zero.
    assert_eq!(fx_div(SCALE, 3 * SCALE), 21845);
    assert_eq!(fx_div(-SCALE, 3 * SCALE), -21845);
    // Saturation keeps results in range.
    assert_eq!(fx_mul(FX_MAX, FX_MAX), FX_MAX);
    assert_eq!(fx_mul(-FX_MAX, FX_MAX), -FX_MAX);
}

#[test]
fn fixed_point_floor_and_mod() {
    assert_eq!(fx_fdiv(7, 2), 3);
    assert_eq!(fx_fdiv(-7, 2), -4);
    assert_eq!(fx_emod(7, 4), 3);
    assert_eq!(fx_emod(-7, 4), 1);
    assert_eq!(fx_emod(-8, 4), 0);
}

#[test]
fn integer_square_root() {
    assert_eq!(isqrt(0), 0);
    assert_eq!(isqrt(15), 3);
    assert_eq!(isqrt(16), 4);
    assert_eq!(isqrt(17), 4);
    let big: u128 = (1u128 << 40) * (1u128 << 40);
    assert_eq!(isqrt(big), 1u64 << 40);
}

#[test]
fn vector_algebra() {
    let a = Vec3::new(SCALE, 2 * SCALE, 3 * SCALE);
    let b = Vec3::new(-SCALE, SCALE, 0);
    assert_eq!(a.add(&b), Vec3::new(0, 3 * SCALE, 3 * SCALE));
    assert_eq!(a.sub(&b), Vec3::new(2 * SCALE, SCALE, 3 * SCALE));
    assert_eq!(a.dot(&b), SCALE);
    let x = Vec3::new(SCALE, 0, 0);
    let y = Vec3::new(0, SCALE, 0);
    assert_eq!(x.cross(&y), Vec3::new(0, 0, SCALE));
    assert_eq!(Vec3::new(3 * SCALE, 4 * SCALE, 0).length(), 5 * SCALE);
    assert_eq!(
        Vec3::new(0, -5 * SCALE, 0).normalize(),
        Vec3::new(0, -SCALE, 0)
    );
    assert_eq!(Vec3::zero().normalize(), Vec3::zero());
}

#[test]
fn quaternion_rotation() {
    let v = Vec3::new(SCALE, 0, 0);
    assert_eq!(Quat::identity().rotate(&v), v);
    // Rotate a quarter turn about the vertical axis:
    // q = (cos 45, 0, sin 45, 0), so x maps close to -z.
    let h = 46341; // sqrt(1/2) in fixed point
    let q = Quat::new(h, 0, h, 0);
    let r = q.rotate(&v);
    assert!(r.x.abs() < 300);
    assert!((r.z + SCALE).abs() < 300);
}

#[test]
fn arctangent_quadrants() {
    assert_eq!(atan2_fx(0, SCALE), 0);
    assert_eq!(atan2_fx(SCALE, 0), 102944);
    assert_eq!(atan2_fx(-SCALE, 0), -102944);
    // Along the diagonal the approximation is near pi/4.
    let d = atan2_fx(SCALE, SCALE);
    assert!((d - 51472).abs() < 600);
}

#[test]
fn sphere_hit_selects_smaller_root() {
    let s = Sphere::new(Vec3::zero(), SCALE, gray_material(), Quat::identity());
    // Aimed at the center from two units away: both roots are real and
    // the nearer one, half way along the aim vector, is returned.
    let ray = Ray {
        origin: Vec3::new(0, 0, -2 * SCALE),
        dir: Vec3::new(0, 0, 2 * SCALE),
    };
    let hit = s.hit(&ray, 66, FX_MAX).expect("ray at center must hit");
    assert_eq!(hit.t, SCALE / 2);
    assert_eq!(hit.p, Vec3::new(0, 0, -SCALE));
    assert!(hit.front_face);
    assert_eq!(hit.normal, Vec3::new(0, 0, -SCALE));
    // The front-face convention: the normal never points along the ray.
    assert!(ray.dir.dot(&hit.normal) <= 0);
}

#[test]
fn sphere_miss_returns_none() {
    let s = Sphere::new(Vec3::zero(), SCALE, gray_material(), Quat::identity());
    // Offset parallel ray: negative discriminant, no hit.
    let ray = Ray {
        origin: Vec3::new(0, 4 * SCALE, -2 * SCALE),
        dir: Vec3::new(0, 0, 2 * SCALE),
    };
    assert!(s.hit(&ray, 66, FX_MAX).is_none());
    // Pointing away: roots behind the origin are rejected.
    let away = Ray {
        origin: Vec3::new(0, 0, -2 * SCALE),
        dir: Vec3::new(0, 0, -2 * SCALE),
    };
    assert!(s.hit(&away, 66, FX_MAX).is_none());
}

#[test]
fn plane_hit_and_uv() {
    let p = Plane::new(
        Vec3::new(0, 0, SCALE),
        Vec3::new(0, 0, -SCALE),
        gray_material(),
    );
    let ray = Ray {
        origin: Vec3::zero(),
        dir: Vec3::new(0, 0, SCALE),
    };
    let hit = p.hit(&ray, 66, FX_MAX).expect("ray into plane must hit");
    assert_eq!(hit.t, SCALE);
    assert_eq!(hit.p, Vec3::new(0, 0, SCALE));
    assert_eq!(hit.normal, Vec3::new(0, 0, -SCALE));
    // A parallel ray misses.
    let parallel = Ray {
        origin: Vec3::zero(),
        dir: Vec3::new(SCALE, 0, 0),
    };
    assert!(p.hit(&parallel, 66, FX_MAX).is_none());
}

#[test]
fn quad_hit_inside_and_outside() {
    let q = Quad::new(
        Vec3::new(-SCALE, -SCALE, 2 * SCALE),
        Vec3::new(0, 0, -SCALE),
        Vec3::new(2 * SCALE, 0, 0),
        Vec3::new(0, 2 * SCALE, 0),
        gray_material(),
    );
    let ray = Ray {
        origin: Vec3::zero(),
        dir: Vec3::new(0, 0, SCALE),
    };
    let hit = q.hit(&ray, 66, FX_MAX).expect("center ray must hit quad");
    assert_eq!(hit.t, 2 * SCALE);
    let uv = q.get_hit_uv(hit.p);
    assert_eq!(uv, Vec2::new(SCALE / 2, SCALE / 2));
    // A ray past the edge of the quad misses it.
    let outside = Ray {
        origin: Vec3::new(3 * SCALE, 0, 0),
        dir: Vec3::new(0, 0, SCALE),
    };
    assert!(q.hit(&outside, 66, FX_MAX).is_none());
}

#[test]
fn triangle_hit_barycentrics() {
    let t = Tri::new(
        Vec3::new(-SCALE, -SCALE, SCALE),
        Vec3::new(SCALE, -SCALE, SCALE),
        Vec3::new(0, SCALE, SCALE),
        gray_material(),
    );
    let ray = Ray {
        origin: Vec3::zero(),
        dir: Vec3::new(0, 0, SCALE),
    };
    let hit = t.hit(&ray, 66, FX_MAX).expect("center ray must hit triangle");
    assert_eq!(hit.t, SCALE);
    // A ray outside the triangle's extent misses.
    let outside = Ray {
        origin: Vec3::new(2 * SCALE, 2 * SCALE, 0),
        dir: Vec3::new(0, 0, SCALE),
    };
    assert!(t.hit(&outside, 66, FX_MAX).is_none());
}

#[test]
fn shape_enum_dispatch() {
    let s = Shape::Sphere(Sphere::new(
        Vec3::zero(),
        SCALE,
        gray_material(),
        Quat::identity(),
    ));
    let ray = Ray {
        origin: Vec3::new(0, 0, -2 * SCALE),
        dir: Vec3::new(0, 0, 2 * SCALE),
    };
    let hit = s.hit(&ray, 66, FX_MAX).expect("dispatch must reach sphere");
    assert_eq!(hit.t, SCALE / 2);
    let bb = s.aabb();
    assert_eq!(bb.min, Vec3::new(-SCALE, -SCALE, -SCALE));
    assert_eq!(bb.max, Vec3::new(SCALE, SCALE, SCALE));
}

#[test]
fn checker_alternates_along_axes() {
    let c1 = Vec3::new(10 * SCALE, 0, 0);
    let c2 = Vec3::new(0, 10 * SCALE, 0);
    let m = CheckerMaterial::new(c1, c2, SCALE, basic_gray());
    let at = |u: i64, v: i64| m.color_at(&Vec2::new(u, v));
    assert_eq!(at(SCALE / 2, SCALE / 2), c1);
    assert_eq!(at(3 * SCALE / 2, SCALE / 2), c2);
    assert_eq!(at(5 * SCALE / 2, SCALE / 2), c1);
    assert_eq!(at(SCALE / 2, 3 * SCALE / 2), c2);
    // Negative tiles keep alternating across the origin.
    assert_eq!(at(-SCALE / 2, SCALE / 2), c2);
}

#[test]
fn texture_wrap_against_clamp() {
    // A 4x4 texture whose texels encode their own coordinates.
    let mut data = Vec::new();
    for y in 0..4i64 {
        for x in 0..4i64 {
            data.push(Vec3::new(x * SCALE, y * SCALE, 0));
        }
    }
    let tex = Texture::new(4, 4, data);
    let fallback = basic_gray();
    let scale = Vec2::new(SCALE, SCALE);
    let uv = Vec2::new(3 * SCALE / 2, SCALE / 2);
    // Wrapping disabled: UV outside the unit square falls back.
    let clamped = sample_texture(&uv, &tex, scale, false, &fallback);
    assert_eq!(clamped, fallback.color);
    // Wrapping enabled: 1.5 wraps to 0.5, the texel at half the width.
    let wrapped = sample_texture(&uv, &tex, scale, true, &fallback);
    assert_eq!(wrapped, Vec3::new(2 * SCALE, 2 * SCALE, 0));
}

#[test]
fn textured_material_samples_its_image() {
    let mut data = Vec::new();
    for i in 0..4i64 {
        data.push(Vec3::new(i * SCALE, 0, 0));
    }
    let tex = Texture::new(2, 2, data);
    let m = TexturedMaterial::new(tex, Vec2::new(SCALE, SCALE), true, basic_gray());
    let c = m.color_at(&Vec2::new(SCALE / 2, SCALE / 2));
    assert_eq!(c, Vec3::new(3 * SCALE, 0, 0));
}

#[test]
fn texture_remap_to_unit_and_signed_range() {
    let full = 255 * SCALE;
    let mut t = Texture::new(1, 1, vec![Vec3::new(full, 0, full / 2)]);
    t.normalize_from_255();
    let p = t.get_pixel(0, 0);
    assert_eq!(p.x, SCALE);
    assert_eq!(p.y, 0);
    let mut u = Texture::new(1, 1, vec![Vec3::new(full, 0, 0)]);
    u.normalize_from_255_to_full_range();
    let q = u.get_pixel(0, 0);
    assert_eq!(q.x, SCALE);
    assert_eq!(q.y, -SCALE);
}

#[test]
fn material_builder_collects_fields() {
    let m = BasicMaterial::builder()
        .color(Vec3::new(SCALE, 2 * SCALE, 3 * SCALE))
        .ambient(100)
        .diffuse(200)
        .specular(300)
        .reflection(400)
        .roughness(500)
        .refraction(600)
        .refractive_index(3 * SCALE / 2)
        .build();
    assert_eq!(m.color, Vec3::new(SCALE, 2 * SCALE, 3 * SCALE));
    assert_eq!(m.ambient, 100);
    assert_eq!(m.diffuse, 200);
    assert_eq!(m.specular, 300);
    assert_eq!(m.reflection, 400);
    assert_eq!(m.roughness, 500);
    assert_eq!(m.refraction, 600);
    assert_eq!(m.refractive_index, 3 * SCALE / 2);
    // A defaulted builder still yields a usable refractive index.
    let d = BasicMaterial::builder().build();
    assert!(d.refractive_index > 0);
}

#[test]
fn hit_record_face_normal() {
    let ray = Ray {
        origin: Vec3::zero(),
        dir: Vec3::new(0, 0, SCALE),
    };
    let mut rec = HitRecord::new();
    rec.set_face_normal(&ray, Vec3::new(0, 0, -SCALE));
    assert!(rec.front_face);
    assert_eq!(rec.normal, Vec3::new(0, 0, -SCALE));
    let mut back = HitRecord::new();
    back.set_face_normal(&ray, Vec3::new(0, 0, SCALE));
    assert!(!back.front_face);
    assert_eq!(back.normal, Vec3::new(0, 0, -SCALE));
    assert!(ray.dir.dot(&back.normal) <= 0);
}

#[test]
fn light_holds_position_and_color() {
    let l = Light::new(Vec3::new(SCALE, 2 * SCALE, 3 * SCALE), Vec3::new(255, 0, 0));
    assert_eq!(l.pos, Vec3::new(SCALE, 2 * SCALE, 3 * SCALE));
    assert_eq!(l.color, Vec3::new(255, 0, 0));
}

#[test]
fn sphere_uv_varies_with_orientation() {
    let s = Sphere::new(Vec3::zero(), SCALE, gray_material(), Quat::identity());
    // The surface point on the positive x axis sits mid-height.
    let uv = s.get_hit_uv(Vec3::new(SCALE, 0, 0));
    assert_eq!(uv.y, SCALE / 2);
    // A quarter turn about the vertical axis moves the azimuth by a
    // quarter of the wrap; the inclination stays put.
    let h = 46341; // sqrt(1/2) in fixed point
    let turned = Sphere::new(Vec3::zero(), SCALE, gray_material(), Quat::new(h, 0, h, 0));
    let uv2 = turned.get_hit_uv(Vec3::new(SCALE, 0, 0));
    assert_eq!(uv2.y, SCALE / 2);
    let delta = (uv2.x - uv.x).abs();
    assert!((delta - SCALE / 4).abs() < 800, "azimuth shift was {}", delta);
}
