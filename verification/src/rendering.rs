//! The recursive shading integrator and the frame renderer.

use vstd::prelude::*;

use crate::fx::{
    fx_add, fx_div, fx_mul, fx_pow, fx_sqrt, fx_sub, fxb, spec_add, spec_div, spec_mul, spec_pow,
    spec_sqrt, spec_sub, FX_MAX, SCALE,
};
use crate::material::Material;
use crate::rng::{spec_seed_state, Rng};
use crate::scene::OptimizedScene;
use crate::shapes::Shape;
use crate::structures::{sv_clip, HitRecord, Light, Ray};
use crate::utils::{random_vector_in_hemisphere, spec_hemisphere_sample, SAMPLE_TRIES};
use crate::vec::{
    sv_add, sv_cross, sv_dot, sv_neg, sv_norm, sv_scale, sv_sub, Vec2, Vec3,
};

verus! {

/// Whether point lights contribute diffuse and specular terms without
/// occlusion testing; no shadow ray is ever cast.
pub const FAUX_LIGHTING_DIFFUSION: bool = true;

pub const FAUX_LIGHTING_SPECULAR: bool = true;

/// Self-intersection epsilon: hits closer than this along the ray are
/// ignored, and bounce rays start this far out along their direction.
pub const EPS_T: i64 = 66;

/// Stands in for an unbounded hit distance.
pub const T_INF: i64 = FX_MAX;

/// Blinn-Phong shininess exponent of the specular term.
pub const SHININESS: u32 = 30;

/// Snell's law in fixed point: the refracted direction, or nothing at
/// total internal reflection.
pub open spec fn spec_refract(incident: Vec3, normal: Vec3, refraction_index: i64, outside: bool) -> Option<Vec3> {
    let n = if outside {
        spec_div(SCALE as int, refraction_index as int) as i64
    } else {
        refraction_index
    };
    let d = sv_dot(normal, incident);
    let c0 = crate::vec::cl(-d);
    let cosi = if c0 > SCALE {
        SCALE as i64
    } else if c0 < -SCALE {
        (-SCALE) as i64
    } else {
        c0
    };
    let sin_t2 = spec_mul(
        spec_mul(n as int, n as int),
        spec_sub(SCALE as int, spec_mul(cosi as int, cosi as int)),
    ) as i64;
    if sin_t2 > SCALE {
        None
    } else {
        let cos_t = spec_sqrt(spec_sub(SCALE as int, sin_t2 as int)) as i64;
        Some(
            sv_add(
                sv_scale(incident, n),
                sv_scale(normal, spec_sub(spec_mul(n as int, cosi as int), cos_t as int) as i64),
            ),
        )
    }
}

fn refract(incident: &Vec3, normal: &Vec3, refraction_index: i64, outside: bool) -> (r: Option<
    Vec3,
>)
    requires
        incident.wf(),
        normal.wf(),
        0 < refraction_index <= FX_MAX,
    ensures
        r == spec_refract(*incident, *normal, refraction_index, outside),
        r is Some ==> r.unwrap().wf(),
{
    let n = if outside {
        fx_div(SCALE, refraction_index)
    } else {
        refraction_index
    };
    let d = normal.dot(incident);
    let c0 = -d;
    let cosi = if c0 > SCALE {
        SCALE
    } else if c0 < -SCALE {
        -SCALE
    } else {
        c0
    };
    let sin_t2 = fx_mul(fx_mul(n, n), fx_sub(SCALE, fx_mul(cosi, cosi)));
    if sin_t2 > SCALE {
        return None;  // Total internal reflection.
    }
    let cos_t = fx_sqrt(fx_sub(SCALE, sin_t2));
    Some(incident.scale(n).add(&normal.scale(fx_sub(fx_mul(n, cosi), cos_t))))
}

/// Diffuse contribution of one light: the material color scaled by the
/// diffuse coefficient and the clamped incidence cosine.
pub open spec fn spec_diffuse_term(
    l: Light,
    mat_color: Vec3,
    diffuse: i64,
    hit_pos: Vec3,
    hit_normal: Vec3,
) -> Vec3 {
    let to_light = sv_norm(sv_sub(l.pos, hit_pos));
    let d = sv_dot(hit_normal, to_light);
    let dmax = if d > 0 {
        d
    } else {
        0
    };
    sv_scale(sv_scale(mat_color, diffuse), dmax)
}

/// Specular contribution of one light: Blinn-Phong with the fixed
/// shininess exponent, against the halfway vector toward the camera.
pub open spec fn spec_specular_term(
    l: Light,
    specular: i64,
    hit_pos: Vec3,
    hit_normal: Vec3,
    cam_pos: Vec3,
) -> Vec3 {
    let to_light = sv_norm(sv_sub(l.pos, hit_pos));
    let to_cam = sv_norm(sv_sub(cam_pos, hit_pos));
    let halfway = sv_norm(sv_add(to_light, to_cam));
    let h = sv_dot(hit_normal, halfway);
    let hmax = if h > 0 {
        h
    } else {
        0
    };
    sv_scale(sv_scale(l.color, specular), spec_pow(hmax as int, SHININESS as nat) as i64)
}

/// Direct lighting folded over the first `k` lights, starting from the
/// ambient term; lights shine through occluders by design.
pub open spec fn spec_light_sum(
    lights: Seq<Light>,
    k: int,
    mat_color: Vec3,
    ambient: i64,
    diffuse: i64,
    specular: i64,
    hit_pos: Vec3,
    hit_normal: Vec3,
    cam_pos: Vec3,
) -> Vec3
    decreases k,
{
    if k <= 0 {
        sv_scale(mat_color, ambient)
    } else {
        let prev = spec_light_sum(
            lights,
            k - 1,
            mat_color,
            ambient,
            diffuse,
            specular,
            hit_pos,
            hit_normal,
            cam_pos,
        );
        let with_diffuse = if FAUX_LIGHTING_DIFFUSION {
            sv_add(prev, spec_diffuse_term(lights[k - 1], mat_color, diffuse, hit_pos, hit_normal))
        } else {
            prev
        };
        if FAUX_LIGHTING_SPECULAR {
            sv_add(
                with_diffuse,
                spec_specular_term(lights[k - 1], specular, hit_pos, hit_normal, cam_pos),
            )
        } else {
            with_diffuse
        }
    }
}

/// Direct lighting at a hit: ambient plus every light's diffuse and
/// specular terms.
pub open spec fn spec_color_at(
    s: OptimizedScene,
    mat: Material,
    hit_pos: Vec3,
    hit_normal: Vec3,
    uv: Vec2,
) -> Vec3 {
    spec_light_sum(
        s.lights@,
        s.lights@.len() as int,
        mat.spec_color_at(uv),
        mat.spec_basic().ambient,
        mat.spec_basic().diffuse,
        mat.spec_basic().specular,
        hit_pos,
        hit_normal,
        s.cam.pos,
    )
}

pub fn color_at(
    scene: &OptimizedScene,
    _ray: &Ray,
    shape_hit: &Shape,
    hit_pos: &Vec3,
    hit_normal: &Vec3,
    uv: &Vec2,
) -> (r: Vec3)
    requires
        scene.wf(),
        shape_hit.wf(),
        hit_pos.wf(),
        hit_normal.wf(),
        uv.wf(),
    ensures
        r == spec_color_at(*scene, shape_hit.spec_material(), *hit_pos, *hit_normal, *uv),
        r.wf(),
{
    let material = shape_hit.material();
    let mat_color = material.color_at(uv);
    let ambient = material.ambient_at(uv);
    let diffuse = material.diffuse_at(uv);
    let specular = material.specular_at(uv);

    // Ambient lighting.
    let mut color = mat_color.scale(ambient);

    let n = scene.lights.len();
    let mut i: usize = 0;
    while i < n
        invariant
            i <= n,
            n == scene.lights@.len(),
            scene.wf(),
            hit_pos.wf(),
            hit_normal.wf(),
            mat_color.wf(),
            fxb(ambient as int),
            fxb(diffuse as int),
            fxb(specular as int),
            color.wf(),
            color == spec_light_sum(
                scene.lights@,
                i as int,
                mat_color,
                ambient,
                diffuse,
                specular,
                *hit_pos,
                *hit_normal,
                scene.cam.pos,
            ),
        decreases n - i,
    {
        let light = scene.lights[i];
        let to_light = light.pos.sub(hit_pos).normalize();
        let to_cam = scene.cam.pos.sub(hit_pos).normalize();

        // Diffuse lighting.
        if FAUX_LIGHTING_DIFFUSION {
            let d = hit_normal.dot(&to_light);
            let dmax = if d > 0 {
                d
            } else {
                0
            };
            color = color.add(&mat_color.scale(diffuse).scale(dmax));
        }

        if FAUX_LIGHTING_SPECULAR {
            // Specular lighting.
            let halfway = to_light.add(&to_cam).normalize();
            let h = hit_normal.dot(&halfway);
            let hmax = if h > 0 {
                h
            } else {
                0
            };
            color = color.add(&light.color.scale(specular).scale(fx_pow(hmax, SHININESS)));
        }
        i = i + 1;
    }
    color
}

/// The distance an intersection fold compares against: that of the hit
/// found so far, unbounded when none was.
pub open spec fn spec_best_t(o: Option<(int, HitRecord)>) -> i64 {
    match o {
        None => T_INF,
        Some(p) => p.1.t,
    }
}

/// The nearest exact hit among the first `n` shapes whose bounding box
/// the ray meets; on equal distances the earliest shape wins.
pub open spec fn spec_nearest_hit(s: OptimizedScene, ray: Ray, n: int) -> Option<(int, HitRecord)>
    decreases n,
{
    if n <= 0 {
        None
    } else {
        let prev = spec_nearest_hit(s, ray, n - 1);
        let i = n - 1;
        if crate::bvh::spec_box_hit(s.shapes@[i].spec_aabb(), ray) {
            match s.shapes@[i].spec_hit(ray, EPS_T, T_INF) {
                Some(h) => if h.t < spec_best_t(prev) {
                    Some((i, h))
                } else {
                    prev
                },
                None => prev,
            }
        } else {
            prev
        }
    }
}

/// Exact-test the candidates the index returns and keep the closest hit.
fn nearest_hit(scene: &OptimizedScene, ray: &Ray) -> (r: Option<(usize, HitRecord)>)
    requires
        scene.wf(),
        ray.wf(),
    ensures
        r is None <==> spec_nearest_hit(*scene, *ray, scene.shapes@.len() as int) is None,
        r is Some ==> {
            let sp = spec_nearest_hit(*scene, *ray, scene.shapes@.len() as int);
            &&& sp is Some
            &&& r.unwrap().0 as int == sp.unwrap().0
            &&& r.unwrap().1 == sp.unwrap().1
            &&& r.unwrap().0 < scene.shapes@.len()
            &&& r.unwrap().1.wf()
            &&& sv_dot(ray.dir, r.unwrap().1.normal) <= 0
        },
{
    let mask = scene.raycast(ray);
    let n = scene.shapes.len();
    let mut best: Option<(usize, HitRecord)> = None;
    let mut closest: i64 = T_INF;
    let mut i: usize = 0;
    while i < n
        invariant
            i <= n,
            n == scene.shapes@.len(),
            scene.wf(),
            ray.wf(),
            mask@.len() == n,
            forall|j: int|
                0 <= j < n ==> mask@[j] == crate::bvh::spec_box_hit(
                    #[trigger] scene.shapes@[j].spec_aabb(),
                    *ray,
                ),
            closest == spec_best_t(spec_nearest_hit(*scene, *ray, i as int)),
            best is None <==> spec_nearest_hit(*scene, *ray, i as int) is None,
            best is Some ==> {
                let sp = spec_nearest_hit(*scene, *ray, i as int);
                &&& sp is Some
                &&& best.unwrap().0 as int == sp.unwrap().0
                &&& best.unwrap().1 == sp.unwrap().1
                &&& best.unwrap().0 < n
                &&& best.unwrap().1.wf()
                &&& sv_dot(ray.dir, best.unwrap().1.normal) <= 0
            },
        decreases n - i,
    {
        if mask[i] {
            let shape = &scene.shapes[i];
            match shape.hit(ray, EPS_T, T_INF) {
                Some(hit_record) => {
                    if hit_record.t < closest {
                        closest = hit_record.t;
                        best = Some((i, hit_record));
                    }
                },
                None => {},
            }
        }
        i = i + 1;
    }
    best
}

/// The hit normal after optional tangent-space normal mapping.
pub open spec fn spec_mapped_normal(mat: Material, base_normal: Vec3, uv: Vec2) -> Vec3 {
    if mat.spec_normal_mult() > 0 {
        let sampled = sv_norm(mat.spec_normal_at(uv));
        let tangent = sv_norm(sv_cross(base_normal, Vec3 { x: 0, y: SCALE as i64, z: 0 }));
        let bitangent = sv_norm(sv_cross(tangent, base_normal));
        sv_norm(
            sv_add(
                sv_add(sv_scale(tangent, sampled.x), sv_scale(bitangent, sampled.y)),
                sv_scale(base_normal, sampled.z),
            ),
        )
    } else {
        base_normal
    }
}

/// The recursive light-transport function: radiance along a ray with a
/// budget of `remaining` bounces, threading the generator state used by
/// rough scattering. An exhausted budget and a miss are both black; on a
/// hit, reflected and refracted contributions are recursed into and
/// summed with the direct lighting, without energy normalization.
pub open spec fn spec_raytrace(s: OptimizedScene, ray: Ray, remaining: u32, state: u64) -> (
    Vec3,
    u64,
)
    decreases remaining,
{
    let black = Vec3 { x: 0, y: 0, z: 0 };
    if remaining == 0 {
        (black, state)
    } else {
        match spec_nearest_hit(s, ray, s.shapes@.len() as int) {
            None => (black, state),
            Some((idx, hit_record)) => {
                let shape = s.shapes@[idx];
                let mat = shape.spec_material();
                let hit_pos = sv_add(ray.origin, sv_scale(ray.dir, hit_record.t));
                let uv = shape.spec_hit_uv(hit_pos);
                let hit_normal = spec_mapped_normal(mat, hit_record.normal, uv);
                let outside = sv_dot(ray.dir, hit_normal) < 0;
                let corrected = if outside {
                    hit_normal
                } else {
                    sv_neg(hit_normal)
                };
                let refl = mat.spec_basic().reflection;
                let c0 = black;
                let (c1, st1) = if refl > 0 {
                    let mirror_dir = sv_sub(
                        ray.dir,
                        sv_scale(
                            corrected,
                            spec_mul(
                                2 * SCALE as int,
                                sv_dot(ray.dir, corrected) as int,
                            ) as i64,
                        ),
                    );
                    let rough = mat.spec_basic().roughness;
                    let (bounce_dir, st_a) = if rough > 0 {
                        let (scat, st_s) = spec_hemisphere_sample(
                            corrected,
                            state,
                            SAMPLE_TRIES as nat,
                        );
                        (sv_add(mirror_dir, sv_scale(sv_sub(scat, mirror_dir), rough)), st_s)
                    } else {
                        (mirror_dir, state)
                    };
                    let bounce_ray = Ray {
                        origin: sv_clip(sv_add(hit_pos, sv_scale(bounce_dir, EPS_T))),
                        dir: sv_norm(sv_clip(bounce_dir)),
                    };
                    let (rc, st_r) = spec_raytrace(s, bounce_ray, (remaining - 1) as u32, st_a);
                    (sv_add(c0, sv_scale(rc, refl)), st_r)
                } else {
                    (c0, state)
                };
                let refr = mat.spec_basic().refraction;
                let (c2, st2) = if refr > 0 {
                    match spec_refract(
                        ray.dir,
                        corrected,
                        mat.spec_basic().refractive_index,
                        outside,
                    ) {
                        Some(refracted_dir) => {
                            let refracted_ray = Ray {
                                origin: sv_clip(
                                    sv_add(hit_pos, sv_scale(refracted_dir, EPS_T)),
                                ),
                                dir: sv_norm(sv_clip(refracted_dir)),
                            };
                            let (rc, st_r) = spec_raytrace(
                                s,
                                refracted_ray,
                                (remaining - 1) as u32,
                                st1,
                            );
                            (sv_add(c1, sv_scale(rc, refr)), st_r)
                        },
                        None => (c1, st1),
                    }
                } else {
                    (c1, st1)
                };
                (sv_add(c2, spec_color_at(s, mat, hit_pos, hit_normal, uv)), st2)
            },
        }
    }
}

/// Trace a ray through the scene with at most `max_bounces - depth`
/// further bounces; the exhausted budget contributes zero radiance.
#[verifier::rlimit(100)]
pub fn raytrace(
    ray: &Ray,
    scene: &OptimizedScene,
    max_bounces: u32,
    depth: u32,
    rng: &mut Rng,
) -> (r: Vec3)
    requires
        ray.wf(),
        scene.wf(),
        depth <= max_bounces,
    ensures
        (r, final(rng).state) == spec_raytrace(
            *scene,
            *ray,
            (max_bounces - depth) as u32,
            old(rng).state,
        ),
        r.wf(),
        depth == max_bounces ==> r == (Vec3 { x: 0i64, y: 0i64, z: 0i64 }),
    decreases max_bounces - depth,
{
    if depth == max_bounces {
        return Vec3::zero();
    }

    match nearest_hit(scene, ray) {
        None => Vec3::zero(),
        Some((idx, hit_record)) => {
            let shape = &scene.shapes[idx];
            let material = shape.material();
            let mut hit_normal = hit_record.normal;
            let hit_pos = ray.at(hit_record.t);
            let uv = shape.get_hit_uv(hit_pos);

            //////// NORMAL MAPPING ////////
            if material.normal_map_magnitude_multiplier() > 0 {
                let sampled_normal = material.normal_at(&uv).normalize();

                // The tangent-bitangent basis around the geometric normal.
                let tangent = hit_normal.cross(&Vec3 { x: 0, y: SCALE, z: 0 }).normalize();
                let bitangent = tangent.cross(&hit_normal).normalize();

                // Transform the sampled normal from tangent space to
                // world space and renormalize.
                hit_normal = tangent.scale(sampled_normal.x).add(
                    &bitangent.scale(sampled_normal.y),
                ).add(&hit_normal.scale(sampled_normal.z)).normalize();
            }

            let mut color = Vec3::zero();

            // Whether the ray comes from outside the surface.
            let outside = ray.dir.dot(&hit_normal) < 0;
            let corrected_normal = if outside {
                hit_normal
            } else {
                hit_normal.neg()
            };

            //////// REFLECTION ////////
            let reflectiveness = material.reflection_at(&uv);
            if reflectiveness > 0 {
                let mut bounce_dir = ray.dir.sub(
                    &corrected_normal.scale(fx_mul(2 * SCALE, ray.dir.dot(&corrected_normal))),
                );

                let roughness = material.roughness_at(&uv);
                if roughness > 0 {
                    let scattered_bounce_dir = random_vector_in_hemisphere(corrected_normal, rng);
                    bounce_dir = bounce_dir.add(
                        &scattered_bounce_dir.sub(&bounce_dir).scale(roughness),
                    );
                }

                let bounce_ray = Ray::new(hit_pos.add(&bounce_dir.scale(EPS_T)), bounce_dir);
                let bounced = raytrace(&bounce_ray, scene, max_bounces, depth + 1, rng);
                color = color.add(&bounced.scale(reflectiveness));
            }

            //////// REFRACTION ////////
            let refractiveness = material.refraction_at(&uv);
            if refractiveness > 0 {
                let refracted_dir = refract(
                    &ray.dir,
                    &corrected_normal,
                    material.refractive_index_at(&uv),
                    outside,
                );

                match refracted_dir {
                    Some(refracted_dir) => {
                        let refracted_ray = Ray::new(
                            hit_pos.add(&refracted_dir.scale(EPS_T)),
                            refracted_dir,
                        );
                        let refracted_color = raytrace(
                            &refracted_ray,
                            scene,
                            max_bounces,
                            depth + 1,
                            rng,
                        );
                        color = color.add(&refracted_color.scale(refractiveness));
                    },
                    None => {},
                }
            }

            //////// DIRECT LIGHTING ////////
            color = color.add(&color_at(scene, ray, shape, &hit_pos, &hit_normal, &uv));

            color
        },
    }
}

/// Largest pixel count per axis and sample count the renderer accepts:
/// enough that a pixel coordinate in fixed point stays representable.
pub const MAX_DIM: usize = 16777216;

/// A pixel index or count as a fixed-point value.
pub open spec fn px_fx(n: int) -> i64 {
    (n * (SCALE as int)) as i64
}

fn px_to_fx(n: usize) -> (r: i64)
    requires
        n <= MAX_DIM,
    ensures
        r == px_fx(n as int),
        fxb(r as int),
        n >= 1 ==> r > 0,
{
    (n as i64) * SCALE
}

/// The viewport frame of a render: the world point behind pixel (0, 0)
/// and the world step per pixel to the right and downwards.
pub open spec fn spec_viewport(cam: crate::scene::Cam, width: int, height: int) -> (Vec3, Vec3, Vec3) {
    let right = cam.right;
    let left = sv_neg(right);
    let up = cam.up;
    let down = sv_neg(up);
    let viewport_center = sv_add(cam.pos, sv_scale(cam.dir, cam.viewport_dist));
    let target_right_step = sv_scale(
        right,
        spec_div(cam.viewport_dims.x as int, px_fx(width) as int) as i64,
    );
    let target_down_step = sv_scale(
        down,
        spec_div(cam.viewport_dims.y as int, px_fx(height) as int) as i64,
    );
    let viewport_top_left = sv_add(
        sv_add(
            viewport_center,
            sv_scale(left, spec_div(cam.viewport_dims.x as int, 2 * SCALE as int) as i64),
        ),
        sv_scale(up, spec_div(cam.viewport_dims.y as int, 2 * SCALE as int) as i64),
    );
    (viewport_top_left, target_right_step, target_down_step)
}

fn viewport(cam: &crate::scene::Cam, width: usize, height: usize) -> (r: (Vec3, Vec3, Vec3))
    requires
        cam.wf(),
        1 <= width <= MAX_DIM,
        1 <= height <= MAX_DIM,
    ensures
        r.0 == spec_viewport(*cam, width as int, height as int).0,
        r.1 == spec_viewport(*cam, width as int, height as int).1,
        r.2 == spec_viewport(*cam, width as int, height as int).2,
        r.0.wf(),
        r.1.wf(),
        r.2.wf(),
{
    let right = cam.right;
    let left = right.neg();
    let up = cam.up;
    let down = up.neg();
    let viewport_center = cam.pos.add(&cam.dir.scale(cam.viewport_dist));
    let target_right_step = right.scale(fx_div(cam.viewport_dims.x, px_to_fx(width)));
    let target_down_step = down.scale(fx_div(cam.viewport_dims.y, px_to_fx(height)));
    let viewport_top_left = viewport_center.add(
        &left.scale(fx_div(cam.viewport_dims.x, 2 * SCALE)),
    ).add(&up.scale(fx_div(cam.viewport_dims.y, 2 * SCALE)));
    (viewport_top_left, target_right_step, target_down_step)
}

/// The jittered samples of one pixel, summed in draw order.
pub open spec fn spec_sample_sum(
    s: OptimizedScene,
    max_bounces: u32,
    k: nat,
    target: Vec3,
    right_step: Vec3,
    down_step: Vec3,
    state: u64,
) -> (Vec3, u64)
    decreases k,
{
    if k == 0 {
        (Vec3 { x: 0, y: 0, z: 0 }, state)
    } else {
        let (acc, st_p) = spec_sample_sum(
            s,
            max_bounces,
            (k - 1) as nat,
            target,
            right_step,
            down_step,
            state,
        );
        let (off, st_d) = crate::utils::spec_disk_sample(st_p, SAMPLE_TRIES as nat);
        let scaled_offset = sv_add(sv_scale(right_step, off.x), sv_scale(down_step, off.y));
        let starting_position = sv_add(s.cam.pos, scaled_offset);
        let ray = Ray {
            origin: sv_clip(starting_position),
            dir: sv_norm(sv_clip(sv_sub(target, s.cam.pos))),
        };
        let (c, st_r) = spec_raytrace(s, ray, max_bounces, st_d);
        (sv_add(acc, c), st_r)
    }
}

/// One pixel: a single deterministic camera ray when one sample is
/// asked for, else the average of jittered samples.
pub open spec fn spec_pixel(
    s: OptimizedScene,
    max_bounces: u32,
    samples: u32,
    top_left: Vec3,
    right_step: Vec3,
    down_step: Vec3,
    x: int,
    y: int,
    state: u64,
) -> (Vec3, u64) {
    let target = sv_add(
        sv_add(top_left, sv_scale(right_step, px_fx(x))),
        sv_scale(down_step, px_fx(y)),
    );
    if samples == 1 {
        let ray = Ray {
            origin: sv_clip(s.cam.pos),
            dir: sv_norm(sv_clip(sv_sub(target, s.cam.pos))),
        };
        spec_raytrace(s, ray, max_bounces, state)
    } else {
        let (acc, st) = spec_sample_sum(
            s,
            max_bounces,
            samples as nat,
            target,
            right_step,
            down_step,
            state,
        );
        let avg = Vec3 {
            x: spec_div(acc.x as int, px_fx(samples as int) as int) as i64,
            y: spec_div(acc.y as int, px_fx(samples as int) as int) as i64,
            z: spec_div(acc.z as int, px_fx(samples as int) as int) as i64,
        };
        (avg, st)
    }
}

/// The first `k` pixels of a row, threading the row's generator.
pub open spec fn spec_row_prefix(
    s: OptimizedScene,
    max_bounces: u32,
    samples: u32,
    top_left: Vec3,
    right_step: Vec3,
    down_step: Vec3,
    k: int,
    y: int,
    state: u64,
) -> (Seq<Vec3>, u64)
    decreases k,
{
    if k <= 0 {
        (Seq::empty(), state)
    } else {
        let (pre, st) = spec_row_prefix(
            s,
            max_bounces,
            samples,
            top_left,
            right_step,
            down_step,
            k - 1,
            y,
            state,
        );
        let (c, st2) = spec_pixel(
            s,
            max_bounces,
            samples,
            top_left,
            right_step,
            down_step,
            k - 1,
            y,
            st,
        );
        (pre.push(c), st2)
    }
}

/// One scanline: its own generator seeded from the render seed, pixels
/// left to right. A row is a function of the render inputs and its row
/// index alone, so rows may be computed in any order, or in parallel,
/// without changing the image.
pub open spec fn spec_render_row(
    s: OptimizedScene,
    width: int,
    height: int,
    samples: u32,
    max_bounces: u32,
    seed: [u8; 32],
    y: int,
) -> Seq<Vec3> {
    let vp = spec_viewport(s.cam, width, height);
    spec_row_prefix(
        s,
        max_bounces,
        samples,
        vp.0,
        vp.1,
        vp.2,
        width,
        y,
        spec_seed_state(seed),
    ).0
}

/// Render one pixel, drawing jitter from the row's generator.
#[verifier::rlimit(100)]
fn render_pixel(
    scene: &OptimizedScene,
    max_bounces: u32,
    num_samples_per_pixel: u32,
    viewport_top_left: Vec3,
    target_right_step: Vec3,
    target_down_step: Vec3,
    x: usize,
    y: usize,
    rng: &mut Rng,
) -> (r: Vec3)
    requires
        scene.wf(),
        x <= MAX_DIM,
        y <= MAX_DIM,
        1 <= num_samples_per_pixel <= MAX_DIM as u32,
        viewport_top_left.wf(),
        target_right_step.wf(),
        target_down_step.wf(),
    ensures
        (r, final(rng).state) == spec_pixel(
            *scene,
            max_bounces,
            num_samples_per_pixel,
            viewport_top_left,
            target_right_step,
            target_down_step,
            x as int,
            y as int,
            old(rng).state,
        ),
        r.wf(),
{
    let x_fx = px_to_fx(x);
    let y_fx = px_to_fx(y);
    let target = viewport_top_left.add(&target_right_step.scale(x_fx)).add(
        &target_down_step.scale(y_fx),
    );

    if num_samples_per_pixel == 1 {
        let ray = Ray::new(scene.cam.pos, target.sub(&scene.cam.pos));
        raytrace(&ray, scene, max_bounces, 0, rng)
    } else {
        let mut acc = Vec3::zero();
        let ghost entry_state: u64 = rng.state;
        let mut s: u32 = 0;
        while s < num_samples_per_pixel
            invariant
                s <= num_samples_per_pixel,
                scene.wf(),
                target.wf(),
                target_right_step.wf(),
                target_down_step.wf(),
                acc.wf(),
                (acc, rng.state) == spec_sample_sum(
                    *scene,
                    max_bounces,
                    s as nat,
                    target,
                    target_right_step,
                    target_down_step,
                    entry_state,
                ),
            decreases num_samples_per_pixel - s,
        {
            let random_offset = crate::utils::random_vector_in_unit_disk(rng);
            let scaled_offset = target_right_step.scale(random_offset.x).add(
                &target_down_step.scale(random_offset.y),
            );
            let starting_position = scene.cam.pos.add(&scaled_offset);
            let ray = Ray::new(starting_position, target.sub(&scene.cam.pos));
            let c = raytrace(&ray, scene, max_bounces, 0, rng);
            acc = acc.add(&c);
            s = s + 1;
        }
        let d = px_to_fx(num_samples_per_pixel as usize);
        Vec3 { x: fx_div(acc.x, d), y: fx_div(acc.y, d), z: fx_div(acc.z, d) }
    }
}

/// Render one scanline.
#[verifier::rlimit(100)]
pub fn render_row(
    scene: &OptimizedScene,
    width: usize,
    height: usize,
    num_samples_per_pixel: u32,
    max_bounces: u32,
    rng_seed: &[u8; 32],
    y: usize,
) -> (r: Vec<Vec3>)
    requires
        scene.wf(),
        1 <= width <= MAX_DIM,
        1 <= height <= MAX_DIM,
        1 <= num_samples_per_pixel <= MAX_DIM as u32,
        y < height,
    ensures
        r@ == spec_render_row(
            *scene,
            width as int,
            height as int,
            num_samples_per_pixel,
            max_bounces,
            *rng_seed,
            y as int,
        ),
        r@.len() == width,
        forall|x: int| 0 <= x < width ==> (#[trigger] r@[x]).wf(),
{
    let vp = viewport(&scene.cam, width, height);
    let (viewport_top_left, target_right_step, target_down_step) = vp;
    let mut rng = Rng::from_seed(rng_seed);
    let mut row: Vec<Vec3> = Vec::new();
    let mut x: usize = 0;
    while x < width
        invariant
            x <= width,
            scene.wf(),
            1 <= width <= MAX_DIM,
            y < height <= MAX_DIM,
            1 <= num_samples_per_pixel <= MAX_DIM as u32,
            viewport_top_left.wf(),
            target_right_step.wf(),
            target_down_step.wf(),
            row@.len() == x,
            forall|j: int| 0 <= j < x ==> (#[trigger] row@[j]).wf(),
            (row@, rng.state) == spec_row_prefix(
                *scene,
                max_bounces,
                num_samples_per_pixel,
                viewport_top_left,
                target_right_step,
                target_down_step,
                x as int,
                y as int,
                spec_seed_state(*rng_seed),
            ),
        decreases width - x,
    {
        let color = render_pixel(
            scene,
            max_bounces,
            num_samples_per_pixel,
            viewport_top_left,
            target_right_step,
            target_down_step,
            x,
            y,
            &mut rng,
        );
        row.push(color);
        x = x + 1;
    }
    row
}

/// Render the whole frame: every scanline in row order. The grid equals
/// row-by-row rendering, so a scheduler that computes rows independently
/// and reassembles them by index produces the identical image.
#[verifier::rlimit(100)]
pub fn render_scene(
    scene: &OptimizedScene,
    width: usize,
    height: usize,
    num_samples_per_pixel: u32,
    max_bounces: u32,
    rng_seed: &[u8; 32],
) -> (r: Vec<Vec<Vec3>>)
    requires
        scene.wf(),
        1 <= width <= MAX_DIM,
        1 <= height <= MAX_DIM,
        1 <= num_samples_per_pixel <= MAX_DIM as u32,
    ensures
        r@.len() == height,
        forall|y: int|
            0 <= y < height ==> (#[trigger] r@[y])@ == spec_render_row(
                *scene,
                width as int,
                height as int,
                num_samples_per_pixel,
                max_bounces,
                *rng_seed,
                y,
            ),
{
    let mut rows: Vec<Vec<Vec3>> = Vec::new();
    let mut y: usize = 0;
    while y < height
        invariant
            y <= height,
            scene.wf(),
            1 <= width <= MAX_DIM,
            1 <= height <= MAX_DIM,
            1 <= num_samples_per_pixel <= MAX_DIM as u32,
            rows@.len() == y,
            forall|j: int|
                0 <= j < y ==> (#[trigger] rows@[j])@ == spec_render_row(
                    *scene,
                    width as int,
                    height as int,
                    num_samples_per_pixel,
                    max_bounces,
                    *rng_seed,
                    j,
                ),
        decreases height - y,
    {
        let row = render_row(scene, width, height, num_samples_per_pixel, max_bounces, rng_seed, y);
        rows.push(row);
        y = y + 1;
    }
    rows
}

/// A row prefix holds one color per pixel folded so far.
pub proof fn lemma_row_prefix_len(
    s: OptimizedScene,
    max_bounces: u32,
    samples: u32,
    top_left: Vec3,
    right_step: Vec3,
    down_step: Vec3,
    k: int,
    y: int,
    state: u64,
)
    ensures
        spec_row_prefix(
            s,
            max_bounces,
            samples,
            top_left,
            right_step,
            down_step,
            k,
            y,
            state,
        ).0.len() == if k <= 0 {
            0
        } else {
            k
        },
    decreases k,
{
    if k > 0 {
        lemma_row_prefix_len(
            s,
            max_bounces,
            samples,
            top_left,
            right_step,
            down_step,
            k - 1,
            y,
            state,
        );
    }
}

/// A hit the intersection fold returns names a shape of the scene.
proof fn lemma_nearest_hit_index_range(s: OptimizedScene, ray: Ray, n: int)
    ensures
        spec_nearest_hit(s, ray, n) is Some ==> 0 <= spec_nearest_hit(s, ray, n).unwrap().0 < n,
    decreases n,
{
    if n > 0 {
        lemma_nearest_hit_index_range(s, ray, n - 1);
    }
}

/// Tracing in a scene without shapes contributes nothing and draws
/// nothing from the generator.
pub proof fn lemma_empty_scene_trace_black(s: OptimizedScene, ray: Ray, remaining: u32, state: u64)
    requires
        s.shapes@.len() == 0,
    ensures
        spec_raytrace(s, ray, remaining, state).0 == (Vec3 { x: 0i64, y: 0i64, z: 0i64 }),
        spec_raytrace(s, ray, remaining, state).1 == state,
{
}

proof fn lemma_empty_scene_sample_sum_black(
    s: OptimizedScene,
    max_bounces: u32,
    k: nat,
    target: Vec3,
    right_step: Vec3,
    down_step: Vec3,
    state: u64,
)
    requires
        s.shapes@.len() == 0,
    ensures
        spec_sample_sum(
            s,
            max_bounces,
            k,
            target,
            right_step,
            down_step,
            state,
        ).0 == (Vec3 { x: 0i64, y: 0i64, z: 0i64 }),
    decreases k,
{
    if k > 0 {
        lemma_empty_scene_sample_sum_black(
            s,
            max_bounces,
            (k - 1) as nat,
            target,
            right_step,
            down_step,
            state,
        );
    }
}

proof fn lemma_empty_scene_pixel_black(
    s: OptimizedScene,
    max_bounces: u32,
    samples: u32,
    top_left: Vec3,
    right_step: Vec3,
    down_step: Vec3,
    x: int,
    y: int,
    state: u64,
)
    requires
        s.shapes@.len() == 0,
        samples >= 1,
    ensures
        spec_pixel(
            s,
            max_bounces,
            samples,
            top_left,
            right_step,
            down_step,
            x,
            y,
            state,
        ).0 == (Vec3 { x: 0i64, y: 0i64, z: 0i64 }),
{
    if samples != 1 {
        let target = sv_add(
            sv_add(top_left, sv_scale(right_step, px_fx(x))),
            sv_scale(down_step, px_fx(y)),
        );
        lemma_empty_scene_sample_sum_black(
            s,
            max_bounces,
            samples as nat,
            target,
            right_step,
            down_step,
            state,
        );
        vstd::arithmetic::div_mod::lemma_div_of0(
            if px_fx(samples as int) >= 0 {
                px_fx(samples as int) as int
            } else {
                -(px_fx(samples as int) as int)
            },
        );
    }
}

proof fn lemma_empty_scene_prefix_black(
    s: OptimizedScene,
    max_bounces: u32,
    samples: u32,
    top_left: Vec3,
    right_step: Vec3,
    down_step: Vec3,
    k: int,
    y: int,
    state: u64,
)
    requires
        s.shapes@.len() == 0,
        samples >= 1,
    ensures
        forall|x: int|
            0 <= x < k ==> spec_row_prefix(
                s,
                max_bounces,
                samples,
                top_left,
                right_step,
                down_step,
                k,
                y,
                state,
            ).0[x] == (Vec3 { x: 0i64, y: 0i64, z: 0i64 }),
    decreases k,
{
    if k > 0 {
        let (pre, st) = spec_row_prefix(
            s,
            max_bounces,
            samples,
            top_left,
            right_step,
            down_step,
            k - 1,
            y,
            state,
        );
        lemma_empty_scene_prefix_black(
            s,
            max_bounces,
            samples,
            top_left,
            right_step,
            down_step,
            k - 1,
            y,
            state,
        );
        lemma_row_prefix_len(
            s,
            max_bounces,
            samples,
            top_left,
            right_step,
            down_step,
            k - 1,
            y,
            state,
        );
        lemma_empty_scene_pixel_black(
            s,
            max_bounces,
            samples,
            top_left,
            right_step,
            down_step,
            k - 1,
            y,
            st,
        );
    }
}

/// A scene with no shapes renders to pure black: no hit, so no light
/// contributes to any pixel.
pub proof fn lemma_empty_scene_renders_black(
    s: OptimizedScene,
    width: int,
    height: int,
    samples: u32,
    max_bounces: u32,
    seed: [u8; 32],
    y: int,
)
    requires
        s.shapes@.len() == 0,
        samples >= 1,
    ensures
        forall|x: int|
            0 <= x < width ==> spec_render_row(s, width, height, samples, max_bounces, seed, y)[x]
                == (Vec3 { x: 0i64, y: 0i64, z: 0i64 }),
{
    let vp = spec_viewport(s.cam, width, height);
    lemma_empty_scene_prefix_black(
        s,
        max_bounces,
        samples,
        vp.0,
        vp.1,
        vp.2,
        width,
        y,
        spec_seed_state(seed),
    );
}

/// A scene in which no material is both reflective and rough: tracing
/// such a scene never draws from the generator.
pub open spec fn scene_rng_free(s: OptimizedScene) -> bool {
    forall|i: int|
        0 <= i < s.shapes@.len() ==> {
            let b = (#[trigger] s.shapes@[i]).spec_material().spec_basic();
            b.reflection <= 0 || b.roughness <= 0
        }
}

/// In a scene free of rough reflectors, tracing neither consumes nor
/// depends on the generator state.
#[verifier::rlimit(100)]
pub proof fn lemma_raytrace_state_free(
    s: OptimizedScene,
    ray: Ray,
    remaining: u32,
    st1: u64,
    st2: u64,
)
    requires
        scene_rng_free(s),
    ensures
        spec_raytrace(s, ray, remaining, st1).0 == spec_raytrace(s, ray, remaining, st2).0,
        spec_raytrace(s, ray, remaining, st1).1 == st1,
        spec_raytrace(s, ray, remaining, st2).1 == st2,
    decreases remaining,
{
    if remaining != 0 {
        let n = s.shapes@.len() as int;
        lemma_nearest_hit_index_range(s, ray, n);
        match spec_nearest_hit(s, ray, n) {
            None => {},
            Some((idx, hit_record)) => {
                let shape = s.shapes@[idx];
                let mat = shape.spec_material();
                let hit_pos = sv_add(ray.origin, sv_scale(ray.dir, hit_record.t));
                let uv = shape.spec_hit_uv(hit_pos);
                let hit_normal = spec_mapped_normal(mat, hit_record.normal, uv);
                let outside = sv_dot(ray.dir, hit_normal) < 0;
                let corrected = if outside {
                    hit_normal
                } else {
                    sv_neg(hit_normal)
                };
                assert(mat.spec_basic().reflection <= 0 || mat.spec_basic().roughness <= 0);
                if mat.spec_basic().reflection > 0 {
                    let mirror_dir = sv_sub(
                        ray.dir,
                        sv_scale(
                            corrected,
                            spec_mul(
                                2 * SCALE as int,
                                sv_dot(ray.dir, corrected) as int,
                            ) as i64,
                        ),
                    );
                    let bounce_ray = Ray {
                        origin: sv_clip(sv_add(hit_pos, sv_scale(mirror_dir, EPS_T))),
                        dir: sv_norm(sv_clip(mirror_dir)),
                    };
                    lemma_raytrace_state_free(s, bounce_ray, (remaining - 1) as u32, st1, st2);
                }
                if mat.spec_basic().refraction > 0 {
                    match spec_refract(
                        ray.dir,
                        corrected,
                        mat.spec_basic().refractive_index,
                        outside,
                    ) {
                        Some(refracted_dir) => {
                            let refracted_ray = Ray {
                                origin: sv_clip(
                                    sv_add(hit_pos, sv_scale(refracted_dir, EPS_T)),
                                ),
                                dir: sv_norm(sv_clip(refracted_dir)),
                            };
                            lemma_raytrace_state_free(
                                s,
                                refracted_ray,
                                (remaining - 1) as u32,
                                st1,
                                st2,
                            );
                        },
                        None => {},
                    }
                }
            },
        }
    }
}

proof fn lemma_single_sample_prefix_seed_free(
    s: OptimizedScene,
    max_bounces: u32,
    top_left: Vec3,
    right_step: Vec3,
    down_step: Vec3,
    k: int,
    y: int,
    st1: u64,
    st2: u64,
)
    requires
        scene_rng_free(s),
    ensures
        spec_row_prefix(s, max_bounces, 1u32, top_left, right_step, down_step, k, y, st1).0
            == spec_row_prefix(s, max_bounces, 1u32, top_left, right_step, down_step, k, y, st2).0,
    decreases k,
{
    if k > 0 {
        lemma_single_sample_prefix_seed_free(
            s,
            max_bounces,
            top_left,
            right_step,
            down_step,
            k - 1,
            y,
            st1,
            st2,
        );
        let p1 = spec_row_prefix(
            s,
            max_bounces,
            1u32,
            top_left,
            right_step,
            down_step,
            k - 1,
            y,
            st1,
        );
        let p2 = spec_row_prefix(
            s,
            max_bounces,
            1u32,
            top_left,
            right_step,
            down_step,
            k - 1,
            y,
            st2,
        );
        let target = sv_add(
            sv_add(top_left, sv_scale(right_step, px_fx(k - 1))),
            sv_scale(down_step, px_fx(y)),
        );
        let ray = Ray {
            origin: sv_clip(s.cam.pos),
            dir: sv_norm(sv_clip(sv_sub(target, s.cam.pos))),
        };
        lemma_raytrace_state_free(s, ray, max_bounces, p1.1, p2.1);
    }
}

/// With one sample per pixel and no rough reflectors, a rendered row is
/// a pure function of the camera geometry: the seed plays no part.
pub proof fn lemma_single_sample_seed_independent(
    s: OptimizedScene,
    width: int,
    height: int,
    max_bounces: u32,
    seed1: [u8; 32],
    seed2: [u8; 32],
    y: int,
)
    requires
        scene_rng_free(s),
    ensures
        spec_render_row(s, width, height, 1u32, max_bounces, seed1, y) == spec_render_row(
            s,
            width,
            height,
            1u32,
            max_bounces,
            seed2,
            y,
        ),
{
    let vp = spec_viewport(s.cam, width, height);
    lemma_single_sample_prefix_seed_free(
        s,
        max_bounces,
        vp.0,
        vp.1,
        vp.2,
        width,
        y,
        spec_seed_state(seed1),
        spec_seed_state(seed2),
    );
}

} // verus!