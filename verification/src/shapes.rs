//! Geometric primitives: sphere, infinite plane, finite quad and
//! triangle, each with intersection, normal, surface-parameterization and
//! bounding-box queries.
//!
//! The near-parallel epsilon of the real-valued formulation lies below
//! one raw fixed-point unit, so the denominator guards here compare
//! against zero exactly.

use vstd::prelude::*;

use crate::fx::{
    clip, fx_add, fx_clip, fx_div, fx_mul, fx_neg, fx_sqrt, fx_sub, fxb, spec_add, spec_div,
    spec_mul, spec_sqrt, spec_sub, FX_MAX, SCALE,
};
use crate::material::Material;
use crate::structures::{make_hit_record, spec_hit_record, sv_clip, vec_clip, HitRecord, Ray};
use crate::utils::{atan2_fx, spec_atan2, spec_perpendicular_to, HALF_PI_FX, PI_FX, TWO_PI_FX};
use crate::vec::{
    cl, sq_rotate, sv_add, sv_cross, sv_dot, sv_len, sv_neg, sv_norm, sv_scale, sv_sub, Quat, Vec2,
    Vec3,
};

verus! {

/// Half the side of the bounding box a plane is given: planes are
/// effectively unbounded, so the box is simply very large.
pub const PLANE_EXTENT: i64 = 6_553_600_000;

/// An axis-aligned bounding box.
#[derive(Clone, Copy, PartialEq, Eq, Structural, Debug)]
pub struct Aabb {
    pub min: Vec3,
    pub max: Vec3,
}

impl Aabb {
    pub open spec fn wf(self) -> bool {
        &&& self.min.wf()
        &&& self.max.wf()
        &&& self.min.x <= self.max.x
        &&& self.min.y <= self.max.y
        &&& self.min.z <= self.max.z
    }

    /// Box containment, the invariant a bounding hierarchy keeps between
    /// a node and its children.
    pub open spec fn spec_contains_box(self, inner: Aabb) -> bool {
        &&& self.min.x <= inner.min.x
        &&& self.min.y <= inner.min.y
        &&& self.min.z <= inner.min.z
        &&& inner.max.x <= self.max.x
        &&& inner.max.y <= self.max.y
        &&& inner.max.z <= self.max.z
    }

    /// The smallest box holding both arguments.
    pub open spec fn spec_union(a: Aabb, b: Aabb) -> Aabb {
        Aabb {
            min: Vec3 {
                x: if a.min.x <= b.min.x {
                    a.min.x
                } else {
                    b.min.x
                },
                y: if a.min.y <= b.min.y {
                    a.min.y
                } else {
                    b.min.y
                },
                z: if a.min.z <= b.min.z {
                    a.min.z
                } else {
                    b.min.z
                },
            },
            max: Vec3 {
                x: if a.max.x >= b.max.x {
                    a.max.x
                } else {
                    b.max.x
                },
                y: if a.max.y >= b.max.y {
                    a.max.y
                } else {
                    b.max.y
                },
                z: if a.max.z >= b.max.z {
                    a.max.z
                } else {
                    b.max.z
                },
            },
        }
    }

    pub fn union(&self, o: &Aabb) -> (r: Aabb)
        requires
            self.wf(),
            o.wf(),
        ensures
            r == Aabb::spec_union(*self, *o),
            r.wf(),
            r.spec_contains_box(*self),
            r.spec_contains_box(*o),
    {
        Aabb {
            min: Vec3 {
                x: if self.min.x <= o.min.x {
                    self.min.x
                } else {
                    o.min.x
                },
                y: if self.min.y <= o.min.y {
                    self.min.y
                } else {
                    o.min.y
                },
                z: if self.min.z <= o.min.z {
                    self.min.z
                } else {
                    o.min.z
                },
            },
            max: Vec3 {
                x: if self.max.x >= o.max.x {
                    self.max.x
                } else {
                    o.max.x
                },
                y: if self.max.y >= o.max.y {
                    self.max.y
                } else {
                    o.max.y
                },
                z: if self.max.z >= o.max.z {
                    self.max.z
                } else {
                    o.max.z
                },
            },
        }
    }
}

/// A sphere with an orientation used for texture mapping.
#[derive(Clone, Debug)]
pub struct Sphere {
    pub center: Vec3,
    pub radius: i64,
    pub orientation: Quat,
    pub material: Material,
}

/// Outward geometric normal of a sphere at a surface point:
/// `(p - center) / radius`, the zero vector for a degenerate radius.
pub open spec fn spec_sphere_outward(s: Sphere, p: Vec3) -> Vec3 {
    if s.radius == 0 {
        Vec3 { x: 0, y: 0, z: 0 }
    } else {
        let pc = sv_sub(p, s.center);
        Vec3 {
            x: spec_div(pc.x as int, s.radius as int) as i64,
            y: spec_div(pc.y as int, s.radius as int) as i64,
            z: spec_div(pc.z as int, s.radius as int) as i64,
        }
    }
}

/// The sphere intersection: solve the quadratic from substituting the
/// ray into `|P - C|^2 = r^2`; a negative discriminant or a degenerate
/// direction is a miss, else the nearest root within range wins.
pub open spec fn spec_sphere_hit(s: Sphere, ray: Ray, tmin: i64, tmax: i64) -> Option<HitRecord> {
    let to = sv_sub(ray.origin, s.center);
    let a = sv_dot(ray.dir, ray.dir);
    let hb = sv_dot(to, ray.dir);
    let c = spec_sub(sv_dot(to, to) as int, spec_mul(s.radius as int, s.radius as int));
    let disc = spec_sub(spec_mul(hb as int, hb as int), spec_mul(a as int, c));
    if disc < 0 {
        None
    } else if a == 0 {
        None
    } else {
        let sq = spec_sqrt(disc);
        let r1 = spec_div(spec_sub(-(hb as int), sq), a as int);
        if tmin <= r1 <= tmax {
            let p1 = sv_add(ray.origin, sv_scale(ray.dir, r1 as i64));
            Some(spec_hit_record(ray, r1 as i64, spec_sphere_outward(s, p1)))
        } else {
            let r2 = spec_div(spec_add(-(hb as int), sq), a as int);
            if tmin <= r2 <= tmax {
                let p2 = sv_add(ray.origin, sv_scale(ray.dir, r2 as i64));
                Some(spec_hit_record(ray, r2 as i64, spec_sphere_outward(s, p2)))
            } else {
                None
            }
        }
    }
}

/// Orientation-corrected spherical UV coordinates of a surface point.
pub open spec fn spec_sphere_uv(s: Sphere, p: Vec3) -> Vec2 {
    let conj = Quat { w: s.orientation.w, x: cl(-s.orientation.x), y: cl(-s.orientation.y), z: cl(-s.orientation.z) };
    let local = sq_rotate(conj, sv_sub(p, s.center));
    let planar = Vec3 { x: local.x, y: 0, z: local.z };
    let theta = spec_atan2(local.y as int, sv_len(planar) as int);
    let phi = spec_atan2(local.z as int, local.x as int);
    let u = spec_sub(SCALE as int, spec_div(spec_add(phi, PI_FX as int), TWO_PI_FX as int));
    let v = spec_div(spec_add(theta, HALF_PI_FX as int), PI_FX as int);
    Vec2 { x: u as i64, y: spec_sub(SCALE as int, v) as i64 }
}

impl Sphere {
    pub open spec fn wf(self) -> bool {
        &&& self.center.wf()
        &&& 0 <= self.radius <= FX_MAX
        &&& self.orientation.wf()
        &&& self.material.wf()
    }

    /// A negative radius is not meaningful and is clamped to zero.
    pub fn new(center: Vec3, radius: i64, material: Material, orientation: Quat) -> (r: Sphere)
        requires
            material.wf(),
        ensures
            r.center == sv_clip(center),
            r.radius == if clip(radius as int) < 0 {
                0int
            } else {
                clip(radius as int)
            },
            r.orientation == (Quat {
                w: cl(orientation.w as int),
                x: cl(orientation.x as int),
                y: cl(orientation.y as int),
                z: cl(orientation.z as int),
            }),
            r.material == material,
            r.wf(),
    {
        let rad = fx_clip(radius);
        Sphere {
            center: vec_clip(center),
            radius: if rad < 0 {
                0
            } else {
                rad
            },
            orientation: Quat::new(orientation.w, orientation.x, orientation.y, orientation.z),
            material,
        }
    }

    pub open spec fn spec_aabb(self) -> Aabb {
        let h = Vec3 { x: self.radius, y: self.radius, z: self.radius };
        Aabb { min: sv_sub(self.center, h), max: sv_add(self.center, h) }
    }

    pub fn aabb(&self) -> (r: Aabb)
        requires
            self.wf(),
        ensures
            r == self.spec_aabb(),
            r.wf(),
    {
        let h = Vec3 { x: self.radius, y: self.radius, z: self.radius };
        let min = self.center.sub(&h);
        let max = self.center.add(&h);
        Aabb { min, max }
    }

    pub fn hit(&self, ray: &Ray, ray_tmin: i64, ray_tmax: i64) -> (r: Option<HitRecord>)
        requires
            self.wf(),
            ray.wf(),
        ensures
            r == spec_sphere_hit(*self, *ray, ray_tmin, ray_tmax),
            r is Some ==> r.unwrap().wf() && sv_dot(ray.dir, r.unwrap().normal) <= 0,
    {
        let to_sphere = ray.origin.sub(&self.center);
        let a = ray.dir.dot(&ray.dir);
        let half_b = to_sphere.dot(&ray.dir);
        let c = fx_sub(to_sphere.dot(&to_sphere), fx_mul(self.radius, self.radius));

        let discriminant = fx_sub(fx_mul(half_b, half_b), fx_mul(a, c));
        if discriminant < 0 {
            return None;
        }
        if a == 0 {
            return None;
        }

        let sqrt_d = fx_sqrt(discriminant);

        // Find the nearest root that lies in the acceptable range.
        let mut root = fx_div(fx_sub(fx_neg(half_b), sqrt_d), a);
        if root < ray_tmin || ray_tmax < root {
            root = fx_div(fx_add(fx_neg(half_b), sqrt_d), a);
            if root < ray_tmin || ray_tmax < root {
                return None;
            }
        }

        let p = ray.at(root);
        let outward = self.outward_at(&p);
        Some(make_hit_record(ray, root, outward))
    }

    fn outward_at(&self, p: &Vec3) -> (r: Vec3)
        requires
            self.wf(),
            p.wf(),
        ensures
            r == spec_sphere_outward(*self, *p),
            r.wf(),
    {
        if self.radius == 0 {
            Vec3::zero()
        } else {
            let pc = p.sub(&self.center);
            Vec3 {
                x: fx_div(pc.x, self.radius),
                y: fx_div(pc.y, self.radius),
                z: fx_div(pc.z, self.radius),
            }
        }
    }

    pub fn get_normal(&self, hit_pos: Vec3) -> (r: Vec3)
        requires
            self.wf(),
            hit_pos.wf(),
        ensures
            r == sv_norm(sv_sub(hit_pos, self.center)),
            r.wf(),
    {
        hit_pos.sub(&self.center).normalize()
    }

    pub fn material(&self) -> (r: &Material)
        ensures
            r == self.material,
    {
        &self.material
    }

    pub fn get_hit_uv(&self, hit_pos: Vec3) -> (r: Vec2)
        requires
            self.wf(),
            hit_pos.wf(),
        ensures
            r == spec_sphere_uv(*self, hit_pos),
            r.wf(),
    {
        // Convert the world-space hit position to local space.
        let local = self.orientation.conjugate().rotate(&hit_pos.sub(&self.center));

        // Spherical coordinates of the local position.
        let planar = Vec3 { x: local.x, y: 0, z: local.z };
        let theta = atan2_fx(local.y, planar.length());
        let phi = atan2_fx(local.z, local.x);

        // Azimuth and inclination normalized into the unit interval.
        let u = fx_sub(SCALE, fx_div(fx_add(phi, PI_FX), TWO_PI_FX));
        let v = fx_div(fx_add(theta, HALF_PI_FX), PI_FX);

        Vec2 { x: u, y: fx_sub(SCALE, v) }
    }
}

/// Aiming a ray at a sphere's center from comfortably outside always
/// hits: the discriminant admits two real roots and the reported
/// distance is the smaller, non-negative one. The margins ask that the
/// aim vector is between one and a few world units long and at least
/// twice the radius, so fixed-point truncation cannot push the near
/// root below the self-intersection epsilon.
pub proof fn lemma_sphere_ray_to_center(s: Sphere, ray: Ray)
    requires
        s.wf(),
        ray.wf(),
        s.radius > 0,
        ray.dir == sv_sub(s.center, ray.origin),
        -131072 <= s.center.x - ray.origin.x <= 131072,
        -131072 <= s.center.y - ray.origin.y <= 131072,
        -131072 <= s.center.z - ray.origin.z <= 131072,
        sv_dot(ray.dir, ray.dir) >= SCALE,
        4 * spec_mul(s.radius as int, s.radius as int) <= sv_dot(ray.dir, ray.dir),
    ensures
        ({
            let to = sv_sub(ray.origin, s.center);
            let a = sv_dot(ray.dir, ray.dir);
            let hb = sv_dot(to, ray.dir);
            let c = spec_sub(sv_dot(to, to) as int, spec_mul(s.radius as int, s.radius as int));
            let disc = spec_sub(spec_mul(hb as int, hb as int), spec_mul(a as int, c));
            &&& disc >= 0
            &&& spec_sphere_hit(s, ray, crate::rendering::EPS_T, crate::rendering::T_INF) is Some
            &&& spec_sphere_hit(
                s,
                ray,
                crate::rendering::EPS_T,
                crate::rendering::T_INF,
            ).unwrap().t == spec_div(spec_sub(-(hb as int), spec_sqrt(disc)), a as int)
            &&& spec_div(spec_sub(-(hb as int), spec_sqrt(disc)), a as int) <= spec_div(
                spec_add(-(hb as int), spec_sqrt(disc)),
                a as int,
            )
            &&& spec_div(spec_sub(-(hb as int), spec_sqrt(disc)), a as int) >= 0
        }),
{
    let o = ray.origin;
    let ctr = s.center;
    let d = ray.dir;
    let to = sv_sub(o, ctr);
    let ss = SCALE as int;

    // The aim vector and its negation are exact at these magnitudes.
    assert(d.x == ctr.x - o.x && d.y == ctr.y - o.y && d.z == ctr.z - o.z);
    assert(to.x == -d.x && to.y == -d.y && to.z == -d.z);

    let sum = d.x * d.x + d.y * d.y + d.z * d.z;
    crate::fx::lemma_abs_mul_le(d.x as int, d.x as int, 131072, 131072);
    crate::fx::lemma_abs_mul_le(d.y as int, d.y as int, 131072, 131072);
    crate::fx::lemma_abs_mul_le(d.z as int, d.z as int, 131072, 131072);
    assert(d.x * d.x >= 0 && d.y * d.y >= 0 && d.z * d.z >= 0) by (nonlinear_arith);
    assert(0 <= sum <= 0xC00_0000_0000);

    let a = sv_dot(d, d);
    assert(a == crate::fx::tdiv(sum, ss));
    vstd::arithmetic::div_mod::lemma_div_is_ordered(sum, 0xC00_0000_0000, ss);
    vstd::arithmetic::div_mod::lemma_div_pos_is_pos(sum, ss);
    assert(SCALE <= a <= 0xC00_0000);

    // The dot of the negated vector with itself or with the original.
    assert(to.x * d.x == -(d.x * d.x)) by (nonlinear_arith)
        requires
            to.x == -d.x,
    ;
    assert(to.y * d.y == -(d.y * d.y)) by (nonlinear_arith)
        requires
            to.y == -d.y,
    ;
    assert(to.z * d.z == -(d.z * d.z)) by (nonlinear_arith)
        requires
            to.z == -d.z,
    ;
    assert(to.x * to.x == d.x * d.x) by (nonlinear_arith)
        requires
            to.x == -d.x,
    ;
    assert(to.y * to.y == d.y * d.y) by (nonlinear_arith)
        requires
            to.y == -d.y,
    ;
    assert(to.z * to.z == d.z * d.z) by (nonlinear_arith)
        requires
            to.z == -d.z,
    ;
    let hb = sv_dot(to, d);
    crate::vec::lemma_tdiv_neg(sum, ss);
    assert(hb == -a);
    assert(sv_dot(to, to) == a);

    // The radius term and the constant coefficient of the quadratic.
    let q = spec_mul(s.radius as int, s.radius as int);
    assert(s.radius * s.radius >= 0) by (nonlinear_arith);
    vstd::arithmetic::div_mod::lemma_div_pos_is_pos(s.radius * s.radius, ss);
    assert(0 <= q);
    assert(4 * q <= a);
    let c = spec_sub(sv_dot(to, to) as int, q);
    assert(c == a - q);

    // The discriminant: both products are quotients of ordered numerators.
    let p1 = spec_mul(hb as int, hb as int);
    assert((-(a as int)) * (-(a as int)) == a * a) by (nonlinear_arith);
    assert(a * a >= 0 && a * a <= 0xC00_0000 * 0xC00_0000) by (nonlinear_arith)
        requires
            0 <= a <= 0xC00_0000,
    ;
    vstd::arithmetic::div_mod::lemma_div_is_ordered(a * a, 0xC00_0000int * 0xC00_0000int, ss);
    vstd::arithmetic::div_mod::lemma_div_pos_is_pos(a * a, ss);
    assert(p1 == (a * a) / ss);

    let p2 = spec_mul(a as int, (a - q) as int);
    assert(0 <= a * (a - q) <= a * a) by (nonlinear_arith)
        requires
            0 <= q,
            4 * q <= a,
    ;
    vstd::arithmetic::div_mod::lemma_div_is_ordered(a * (a - q), a * a, ss);
    vstd::arithmetic::div_mod::lemma_div_pos_is_pos(a * (a - q), ss);
    assert(p2 == (a * (a - q)) / ss);

    let disc = spec_sub(p1, p2);
    assert(disc == p1 - p2);
    assert(disc >= 0);

    // Bound the discriminant above to bound the square root:
    // p1 - p2 <= (a*a - a*(a - q))/SCALE + 1 == a*q/SCALE + 1.
    vstd::arithmetic::div_mod::lemma_fundamental_div_mod(a * a, ss);
    vstd::arithmetic::div_mod::lemma_fundamental_div_mod(a * (a - q), ss);
    vstd::arithmetic::div_mod::lemma_mod_decreases((a * a) as nat, ss as nat);
    vstd::arithmetic::div_mod::lemma_mod_decreases((a * (a - q)) as nat, ss as nat);
    assert(a * a - a * (a - q) == a * q) by (nonlinear_arith);
    assert(disc * ss <= a * q + ss) by (nonlinear_arith)
        requires
            a * a == ss * p1 + (a * a) % ss,
            a * (a - q) == ss * p2 + (a * (a - q)) % ss,
            0 <= (a * a) % ss < ss,
            0 <= (a * (a - q)) % ss < ss,
            disc == p1 - p2,
            a * a - a * (a - q) == a * q,
    ;

    // The square root of the discriminant is at most a/2 + 2.
    let sq = spec_sqrt(disc);
    assert(0 <= a * q) by (nonlinear_arith)
        requires
            0 <= a,
            0 <= q,
    ;
    if disc == 0 {
        assert(sq == 0);
        assert(sq * sq <= a * q + ss) by (nonlinear_arith)
            requires
                sq == 0,
                0 <= a * q,
                0 < ss,
        ;
    } else {
        crate::fx::lemma_sqrt_floor((disc * ss) as nat);
        assert(sq * sq <= disc * ss);
        assert(sq * sq <= a * q + ss);
    }
    assert(sq >= 0);
    assert(sq * sq <= a * q + ss);
    vstd::arithmetic::div_mod::lemma_fundamental_div_mod(a as int, 2);
    assert(2 * (a / 2) >= a - 1);
    assert(a * q + ss <= (a / 2 + 2) * (a / 2 + 2)) by (nonlinear_arith)
        requires
            0 <= q,
            4 * q <= a,
            SCALE <= a,
            ss == 65536,
            SCALE == 65536,
            2 * (a / 2) >= a - 1,
            a / 2 >= 0,
    ;
    let h = a as int / 2;
    assert(h >= 0);
    assert(sq <= h + 2) by (nonlinear_arith)
        requires
            sq >= 0,
            h >= 0,
            sq * sq <= a * q + ss,
            a * q + ss <= (h + 2) * (h + 2),
    ;
    assert(sq <= a / 2 + 2);

    // The near root: non-negative, at most one, and past the epsilon.
    let num1 = spec_sub(-(hb as int), sq);
    assert(num1 == a - sq);
    assert(a - sq >= a - (a / 2 + 2) >= 0);
    let r1 = spec_div(num1, a as int);
    assert(0 <= (a - sq) * ss <= a * ss) by (nonlinear_arith)
        requires
            0 <= a - sq <= a,
            ss > 0,
    ;
    vstd::arithmetic::div_mod::lemma_div_is_ordered((a - sq) * ss, a * ss, a as int);
    vstd::arithmetic::div_mod::lemma_div_pos_is_pos((a - sq) * ss, a as int);
    assert((a * ss) / (a as int) == ss) by {
        vstd::arithmetic::div_mod::lemma_fundamental_div_mod_converse_div(a * ss, a as int, ss, 0);
    }
    assert(r1 == ((a - sq) * ss) / (a as int));
    assert(r1 <= ss);

    // r1 >= (a/2 - 1)*SCALE/a - 1 >= SCALE/2 - 3 >= EPS_T.
    vstd::arithmetic::div_mod::lemma_fundamental_div_mod((a - sq) * ss, a as int);
    vstd::arithmetic::div_mod::lemma_mod_decreases(((a - sq) * ss) as nat, a as nat);
    assert(r1 * a >= (a - sq) * ss - a) by (nonlinear_arith)
        requires
            (a - sq) * ss == a * r1 + ((a - sq) * ss) % (a as int),
            0 <= ((a - sq) * ss) % (a as int) < a,
    ;
    assert(r1 >= 32000) by (nonlinear_arith)
        requires
            r1 * a >= (a - sq) * ss - a,
            a - sq >= a - (a / 2 + 2),
            2 * (a / 2) >= a - 1,
            SCALE <= a <= 0xC00_0000,
            SCALE == 65536,
            ss == 65536,
            r1 <= ss,
    ;

    // The far root is no smaller.
    let num2 = spec_add(-(hb as int), sq);
    assert(num2 == a + sq);
    let r2 = spec_div(num2, a as int);
    assert((a - sq) * ss <= (a + sq) * ss) by (nonlinear_arith)
        requires
            sq >= 0,
            ss > 0,
    ;
    assert(sq <= a);
    assert(0 <= (a + sq) * ss <= 2 * (a * ss)) by (nonlinear_arith)
        requires
            0 <= sq <= a,
            ss > 0,
    ;
    vstd::arithmetic::div_mod::lemma_div_is_ordered((a - sq) * ss, (a + sq) * ss, a as int);
    assert(r2 == ((a + sq) * ss) / (a as int));
    assert(r1 <= r2);
}

/// A ray whose discriminant against a sphere is negative misses it:
/// the intersection test returns nothing.
pub proof fn lemma_sphere_miss(s: Sphere, ray: Ray, tmin: i64, tmax: i64)
    requires
        ({
            let to = sv_sub(ray.origin, s.center);
            let a = sv_dot(ray.dir, ray.dir);
            let hb = sv_dot(to, ray.dir);
            let c = spec_sub(sv_dot(to, to) as int, spec_mul(s.radius as int, s.radius as int));
            spec_sub(spec_mul(hb as int, hb as int), spec_mul(a as int, c)) < 0
        }),
    ensures
        spec_sphere_hit(s, ray, tmin, tmax) is None,
{
}

/// A finite parallelogram spanned by two edge vectors from a corner.
#[derive(Clone, Debug)]
pub struct Quad {
    pub point: Vec3,
    pub normal: Vec3,
    pub edge1: Vec3,
    pub edge2: Vec3,
    pub material: Material,
}

/// Plane solve, then a bounds test: the projection of the hit offset on
/// each edge must lie within that edge's squared length.
pub open spec fn spec_quad_hit(q: Quad, ray: Ray) -> Option<HitRecord> {
    let den = sv_dot(q.normal, ray.dir);
    if den == 0 {
        None
    } else {
        let v = sv_sub(q.point, ray.origin);
        let t = spec_div(sv_dot(v, q.normal) as int, den as int);
        if t < 0 {
            None
        } else {
            let hit_point = sv_add(ray.origin, sv_scale(ray.dir, t as i64));
            let hp_local = sv_sub(hit_point, q.point);
            let dot1 = sv_dot(hp_local, q.edge1);
            let dot2 = sv_dot(hp_local, q.edge2);
            let e1sq = sv_dot(q.edge1, q.edge1);
            let e2sq = sv_dot(q.edge2, q.edge2);
            if 0 <= dot1 <= e1sq && 0 <= dot2 <= e2sq {
                Some(spec_hit_record(ray, t as i64, q.normal))
            } else {
                None
            }
        }
    }
}

/// Projection of the hit offset onto the normalized edges, scaled by the
/// edge lengths.
pub open spec fn spec_quad_uv(q: Quad, p: Vec3) -> Vec2 {
    let local = sv_sub(p, q.point);
    let u = sv_dot(local, sv_norm(q.edge1));
    let v = sv_dot(local, sv_norm(q.edge2));
    Vec2 {
        x: spec_div(u as int, sv_len(q.edge1) as int) as i64,
        y: spec_div(v as int, sv_len(q.edge2) as int) as i64,
    }
}

pub open spec fn imin(a: i64, b: i64) -> i64 {
    if a <= b {
        a
    } else {
        b
    }
}

pub open spec fn imax(a: i64, b: i64) -> i64 {
    if a >= b {
        a
    } else {
        b
    }
}

fn emin(a: i64, b: i64) -> (r: i64)
    ensures
        r == imin(a, b),
{
    if a <= b {
        a
    } else {
        b
    }
}

fn emax(a: i64, b: i64) -> (r: i64)
    ensures
        r == imax(a, b),
{
    if a >= b {
        a
    } else {
        b
    }
}

/// The componentwise bounding box of a list's worth of vertices, given
/// here for the quad's four corners.
pub open spec fn spec_quad_aabb(q: Quad) -> Aabb {
    let v0 = q.point;
    let v1 = sv_add(q.point, q.edge1);
    let v2 = sv_add(q.point, q.edge2);
    let v3 = sv_add(sv_add(q.point, q.edge1), q.edge2);
    Aabb {
        min: Vec3 {
            x: imin(imin(v0.x, v1.x), imin(v2.x, v3.x)),
            y: imin(imin(v0.y, v1.y), imin(v2.y, v3.y)),
            z: imin(imin(v0.z, v1.z), imin(v2.z, v3.z)),
        },
        max: Vec3 {
            x: imax(imax(v0.x, v1.x), imax(v2.x, v3.x)),
            y: imax(imax(v0.y, v1.y), imax(v2.y, v3.y)),
            z: imax(imax(v0.z, v1.z), imax(v2.z, v3.z)),
        },
    }
}

impl Quad {
    pub open spec fn wf(self) -> bool {
        &&& self.point.wf()
        &&& self.normal.wf()
        &&& self.edge1.wf()
        &&& self.edge2.wf()
        &&& self.material.wf()
    }

    pub fn new(point: Vec3, normal: Vec3, edge1: Vec3, edge2: Vec3, material: Material) -> (r:
        Quad)
        requires
            material.wf(),
        ensures
            r.point == sv_clip(point),
            r.normal == sv_norm(sv_clip(normal)),
            r.edge1 == sv_clip(edge1),
            r.edge2 == sv_clip(edge2),
            r.material == material,
            r.wf(),
    {
        Quad {
            point: vec_clip(point),
            normal: vec_clip(normal).normalize(),
            edge1: vec_clip(edge1),
            edge2: vec_clip(edge2),
            material,
        }
    }

    /// Corner and edges from three of four corner points; the normal is
    /// the normalized cross product of the edges.
    pub fn new_from_points(p1: Vec3, p2: Vec3, p3: Vec3, _p4: Vec3, material: Material) -> (r:
        Quad)
        requires
            material.wf(),
        ensures
            r.point == sv_clip(p1),
            r.edge1 == sv_sub(sv_clip(p2), sv_clip(p1)),
            r.edge2 == sv_sub(sv_clip(p3), sv_clip(p1)),
            r.normal == sv_norm(sv_cross(r.edge1, r.edge2)),
            r.material == material,
            r.wf(),
    {
        let c1 = vec_clip(p1);
        let edge1 = vec_clip(p2).sub(&c1);
        let edge2 = vec_clip(p3).sub(&c1);
        let normal = edge1.cross(&edge2).normalize();
        Quad { point: c1, normal, edge1, edge2, material }
    }

    pub open spec fn spec_aabb(self) -> Aabb {
        spec_quad_aabb(self)
    }

    pub fn aabb(&self) -> (r: Aabb)
        requires
            self.wf(),
        ensures
            r == self.spec_aabb(),
            r.wf(),
    {
        let v0 = self.point;
        let v1 = self.point.add(&self.edge1);
        let v2 = self.point.add(&self.edge2);
        let v3 = self.point.add(&self.edge1).add(&self.edge2);
        Aabb {
            min: Vec3 {
                x: emin(emin(v0.x, v1.x), emin(v2.x, v3.x)),
                y: emin(emin(v0.y, v1.y), emin(v2.y, v3.y)),
                z: emin(emin(v0.z, v1.z), emin(v2.z, v3.z)),
            },
            max: Vec3 {
                x: emax(emax(v0.x, v1.x), emax(v2.x, v3.x)),
                y: emax(emax(v0.y, v1.y), emax(v2.y, v3.y)),
                z: emax(emax(v0.z, v1.z), emax(v2.z, v3.z)),
            },
        }
    }

    /// The range parameters are kept for interface uniformity; the quad
    /// test only rejects hits behind the ray origin.
    pub fn hit(&self, ray: &Ray, _ray_tmin: i64, _ray_tmax: i64) -> (r: Option<HitRecord>)
        requires
            self.wf(),
            ray.wf(),
        ensures
            r == spec_quad_hit(*self, *ray),
            r is Some ==> r.unwrap().wf() && sv_dot(ray.dir, r.unwrap().normal) <= 0,
    {
        let denominator = self.normal.dot(&ray.dir);
        if denominator == 0 {
            // Ray is parallel to the quad's plane.
            return None;
        }

        let v = self.point.sub(&ray.origin);
        let t = fx_div(v.dot(&self.normal), denominator);
        if t < 0 {
            // The intersection is behind the ray's origin.
            return None;
        }

        let hit_point = ray.at(t);

        // Check that the hit point lies inside the quad bounds.
        let hp_local = hit_point.sub(&self.point);
        let dot1 = hp_local.dot(&self.edge1);
        let dot2 = hp_local.dot(&self.edge2);
        let edge1_length_sq = self.edge1.dot(&self.edge1);
        let edge2_length_sq = self.edge2.dot(&self.edge2);
        if dot1 >= 0 && dot1 <= edge1_length_sq && dot2 >= 0 && dot2 <= edge2_length_sq {
            Some(make_hit_record(ray, t, self.normal))
        } else {
            None
        }
    }

    pub fn get_normal(&self, _hit_pos: Vec3) -> (r: Vec3)
        ensures
            r == self.normal,
    {
        self.normal
    }

    pub fn material(&self) -> (r: &Material)
        ensures
            r == self.material,
    {
        &self.material
    }

    pub fn get_hit_uv(&self, hit_pos: Vec3) -> (r: Vec2)
        requires
            self.wf(),
            hit_pos.wf(),
        ensures
            r == spec_quad_uv(*self, hit_pos),
            r.wf(),
    {
        let local = hit_pos.sub(&self.point);
        let u = local.dot(&self.edge1.normalize());
        let v = local.dot(&self.edge2.normalize());
        let l1 = self.edge1.length();
        let l2 = self.edge2.length();
        let un = if l1 == 0 {
            0
        } else {
            fx_div(u, l1)
        };
        let vn = if l2 == 0 {
            0
        } else {
            fx_div(v, l2)
        };
        Vec2 { x: un, y: vn }
    }
}

/// An infinite plane through a point.
#[derive(Clone, Debug)]
pub struct Plane {
    pub point: Vec3,
    pub normal: Vec3,
    pub material: Material,
}

pub open spec fn spec_plane_hit(pl: Plane, ray: Ray) -> Option<HitRecord> {
    let den = sv_dot(pl.normal, ray.dir);
    if den != 0 {
        let v = sv_sub(pl.point, ray.origin);
        let t = spec_div(sv_dot(v, pl.normal) as int, den as int);
        if t >= 0 {
            Some(spec_hit_record(ray, t as i64, pl.normal))
        } else {
            None
        }
    } else {
        None
    }
}

/// Projection onto two perpendicular in-plane directions, folded by a
/// truncating remainder into a repeating unit tile.
pub open spec fn spec_plane_uv(pl: Plane, p: Vec3) -> Vec2 {
    let u_dir = spec_perpendicular_to(pl.normal);
    let v_dir = sv_norm(sv_cross(pl.normal, u_dir));
    let u = sv_dot(p, u_dir);
    let v = sv_dot(p, v_dir);
    Vec2 {
        x: crate::fx::tmod(u as int, SCALE as int) as i64,
        y: crate::fx::tmod(v as int, SCALE as int) as i64,
    }
}

impl Plane {
    pub open spec fn wf(self) -> bool {
        &&& self.point.wf()
        &&& self.normal.wf()
        &&& self.material.wf()
    }

    pub fn new(point: Vec3, normal: Vec3, material: Material) -> (r: Plane)
        requires
            material.wf(),
        ensures
            r.point == sv_clip(point),
            r.normal == sv_norm(sv_clip(normal)),
            r.material == material,
            r.wf(),
    {
        Plane { point: vec_clip(point), normal: vec_clip(normal).normalize(), material }
    }

    pub open spec fn spec_aabb(self) -> Aabb {
        let e = Vec3 { x: PLANE_EXTENT, y: PLANE_EXTENT, z: PLANE_EXTENT };
        Aabb { min: sv_sub(self.point, e), max: sv_add(self.point, e) }
    }

    pub fn aabb(&self) -> (r: Aabb)
        requires
            self.wf(),
        ensures
            r == self.spec_aabb(),
            r.wf(),
    {
        let e = Vec3 { x: PLANE_EXTENT, y: PLANE_EXTENT, z: PLANE_EXTENT };
        Aabb { min: self.point.sub(&e), max: self.point.add(&e) }
    }

    /// The range parameters are kept for interface uniformity; the plane
    /// test only rejects hits behind the ray origin.
    pub fn hit(&self, ray: &Ray, _ray_tmin: i64, _ray_tmax: i64) -> (r: Option<HitRecord>)
        requires
            self.wf(),
            ray.wf(),
        ensures
            r == spec_plane_hit(*self, *ray),
            r is Some ==> r.unwrap().wf() && sv_dot(ray.dir, r.unwrap().normal) <= 0,
    {
        let denom = self.normal.dot(&ray.dir);
        if denom != 0 {
            let v = self.point.sub(&ray.origin);
            let distance = fx_div(v.dot(&self.normal), denom);
            if distance >= 0 {
                return Some(make_hit_record(ray, distance, self.normal));
            }
        }
        None
    }

    pub fn get_normal(&self, _hit_pos: Vec3) -> (r: Vec3)
        ensures
            r == self.normal,
    {
        // For a plane, the normal is the same everywhere.
        self.normal
    }

    pub fn material(&self) -> (r: &Material)
        ensures
            r == self.material,
    {
        &self.material
    }

    pub fn get_hit_uv(&self, hit_pos: Vec3) -> (r: Vec2)
        requires
            self.wf(),
            hit_pos.wf(),
        ensures
            r == spec_plane_uv(*self, hit_pos),
            r.wf(),
    {
        // Two perpendicular directions spanning the plane.
        let u_dir = crate::utils::perpendicular_to(self.normal);
        let v_dir = self.normal.cross(&u_dir).normalize();

        // Project the hit position onto those directions.
        let u = hit_pos.dot(&u_dir);
        let v = hit_pos.dot(&v_dir);

        // Fold into a repeating unit tile.
        Vec2 { x: crate::fx::fx_tmod(u, SCALE), y: crate::fx::fx_tmod(v, SCALE) }
    }
}

/// A triangle given by its three corners.
#[derive(Clone, Debug)]
pub struct Tri {
    pub a: Vec3,
    pub b: Vec3,
    pub c: Vec3,
    pub material: Material,
}

/// The Moeller-Trumbore intersection test: barycentric coordinates from
/// cross products, each bound checked before the distance test.
pub open spec fn spec_tri_hit(tr: Tri, ray: Ray, tmin: i64, tmax: i64) -> Option<HitRecord> {
    let e1 = sv_sub(tr.b, tr.a);
    let e2 = sv_sub(tr.c, tr.a);
    let h = sv_cross(ray.dir, e2);
    let det = sv_dot(e1, h);
    if det == 0 {
        None
    } else {
        let f = spec_div(SCALE as int, det as int);
        let s = sv_sub(ray.origin, tr.a);
        let u = spec_mul(f, sv_dot(s, h) as int);
        if !(0 <= u <= SCALE) {
            None
        } else {
            let q = sv_cross(s, e1);
            let v = spec_mul(f, sv_dot(ray.dir, q) as int);
            if v < 0 || u + v > SCALE {
                None
            } else {
                let t = spec_mul(f, sv_dot(e2, q) as int);
                if t < tmin || t > tmax {
                    None
                } else {
                    Some(spec_hit_record(ray, t as i64, sv_norm(sv_cross(e1, e2))))
                }
            }
        }
    }
}

/// Barycentric surface coordinates of a point on the triangle.
pub open spec fn spec_tri_uv(tr: Tri, p: Vec3) -> Vec2 {
    let e1 = sv_sub(tr.b, tr.a);
    let e2 = sv_sub(tr.c, tr.a);
    let hv = sv_sub(p, tr.a);
    let dot00 = sv_dot(e1, e1);
    let dot01 = sv_dot(e1, e2);
    let dot11 = sv_dot(e2, e2);
    let dot0h = sv_dot(e1, hv);
    let dot1h = sv_dot(e2, hv);
    let denom = spec_sub(spec_mul(dot00 as int, dot11 as int), spec_mul(dot01 as int, dot01 as int));
    let inv = spec_div(SCALE as int, denom);
    let u = spec_mul(spec_sub(spec_mul(dot11 as int, dot0h as int), spec_mul(dot01 as int, dot1h as int)), inv);
    let v = spec_mul(spec_sub(spec_mul(dot00 as int, dot1h as int), spec_mul(dot01 as int, dot0h as int)), inv);
    Vec2 { x: u as i64, y: v as i64 }
}

pub open spec fn spec_tri_aabb(tr: Tri) -> Aabb {
    Aabb {
        min: Vec3 {
            x: imin(imin(tr.a.x, tr.b.x), tr.c.x),
            y: imin(imin(tr.a.y, tr.b.y), tr.c.y),
            z: imin(imin(tr.a.z, tr.b.z), tr.c.z),
        },
        max: Vec3 {
            x: imax(imax(tr.a.x, tr.b.x), tr.c.x),
            y: imax(imax(tr.a.y, tr.b.y), tr.c.y),
            z: imax(imax(tr.a.z, tr.b.z), tr.c.z),
        },
    }
}

impl Tri {
    pub open spec fn wf(self) -> bool {
        &&& self.a.wf()
        &&& self.b.wf()
        &&& self.c.wf()
        &&& self.material.wf()
    }

    pub fn new(a: Vec3, b: Vec3, c: Vec3, material: Material) -> (r: Tri)
        requires
            material.wf(),
        ensures
            r.a == sv_clip(a),
            r.b == sv_clip(b),
            r.c == sv_clip(c),
            r.material == material,
            r.wf(),
    {
        Tri { a: vec_clip(a), b: vec_clip(b), c: vec_clip(c), material }
    }

    pub open spec fn spec_aabb(self) -> Aabb {
        spec_tri_aabb(self)
    }

    pub fn aabb(&self) -> (r: Aabb)
        requires
            self.wf(),
        ensures
            r == self.spec_aabb(),
            r.wf(),
    {
        Aabb {
            min: Vec3 {
                x: emin(emin(self.a.x, self.b.x), self.c.x),
                y: emin(emin(self.a.y, self.b.y), self.c.y),
                z: emin(emin(self.a.z, self.b.z), self.c.z),
            },
            max: Vec3 {
                x: emax(emax(self.a.x, self.b.x), self.c.x),
                y: emax(emax(self.a.y, self.b.y), self.c.y),
                z: emax(emax(self.a.z, self.b.z), self.c.z),
            },
        }
    }

    pub fn hit(&self, ray: &Ray, ray_tmin: i64, ray_tmax: i64) -> (r: Option<HitRecord>)
        requires
            self.wf(),
            ray.wf(),
        ensures
            r == spec_tri_hit(*self, *ray, ray_tmin, ray_tmax),
            r is Some ==> r.unwrap().wf() && sv_dot(ray.dir, r.unwrap().normal) <= 0,
    {
        let edge1 = self.b.sub(&self.a);
        let edge2 = self.c.sub(&self.a);
        let h = ray.dir.cross(&edge2);
        let a = edge1.dot(&h);

        if a == 0 {
            return None;  // Ray is parallel to the triangle.
        }

        let f = fx_div(SCALE, a);
        let s = ray.origin.sub(&self.a);
        let u = fx_mul(f, s.dot(&h));

        if u < 0 || u > SCALE {
            return None;  // Intersection is outside the triangle.
        }

        let q = s.cross(&edge1);
        let v = fx_mul(f, ray.dir.dot(&q));

        if v < 0 || u + v > SCALE {
            return None;  // Intersection is outside the triangle.
        }

        let t = fx_mul(f, edge2.dot(&q));

        if t < ray_tmin || t > ray_tmax {
            return None;  // Intersection is outside the valid range.
        }

        let normal = edge1.cross(&edge2).normalize();
        Some(make_hit_record(ray, t, normal))
    }

    pub fn get_normal(&self, _hit_pos: Vec3) -> (r: Vec3)
        requires
            self.wf(),
        ensures
            r == sv_norm(sv_cross(sv_sub(self.b, self.a), sv_sub(self.c, self.a))),
            r.wf(),
    {
        let edge1 = self.b.sub(&self.a);
        let edge2 = self.c.sub(&self.a);
        edge1.cross(&edge2).normalize()
    }

    pub fn material(&self) -> (r: &Material)
        ensures
            r == self.material,
    {
        &self.material
    }

    pub fn get_hit_uv(&self, hit_pos: Vec3) -> (r: Vec2)
        requires
            self.wf(),
            hit_pos.wf(),
        ensures
            r == spec_tri_uv(*self, hit_pos),
            r.wf(),
    {
        let edge1 = self.b.sub(&self.a);
        let edge2 = self.c.sub(&self.a);
        let hit_vec = hit_pos.sub(&self.a);

        let dot00 = edge1.dot(&edge1);
        let dot01 = edge1.dot(&edge2);
        let dot11 = edge2.dot(&edge2);
        let dot0h = edge1.dot(&hit_vec);
        let dot1h = edge2.dot(&hit_vec);

        let denom = fx_sub(fx_mul(dot00, dot11), fx_mul(dot01, dot01));
        let inv_denom = if denom == 0 {
            0
        } else {
            fx_div(SCALE, denom)
        };
        let u = fx_mul(fx_sub(fx_mul(dot11, dot0h), fx_mul(dot01, dot1h)), inv_denom);
        let v = fx_mul(fx_sub(fx_mul(dot00, dot1h), fx_mul(dot01, dot0h)), inv_denom);

        Vec2 { x: u, y: v }
    }
}

/// The closed set of shape variants.
#[derive(Clone, Debug)]
pub enum Shape {
    Sphere(Sphere),
    Quad(Quad),
    Plane(Plane),
    Tri(Tri),
}

impl Shape {
    pub open spec fn wf(self) -> bool {
        match self {
            Shape::Sphere(s) => s.wf(),
            Shape::Quad(s) => s.wf(),
            Shape::Plane(s) => s.wf(),
            Shape::Tri(s) => s.wf(),
        }
    }

    pub open spec fn spec_material(self) -> Material {
        match self {
            Shape::Sphere(s) => s.material,
            Shape::Quad(s) => s.material,
            Shape::Plane(s) => s.material,
            Shape::Tri(s) => s.material,
        }
    }

    pub open spec fn spec_hit(self, ray: Ray, tmin: i64, tmax: i64) -> Option<HitRecord> {
        match self {
            Shape::Sphere(s) => spec_sphere_hit(s, ray, tmin, tmax),
            Shape::Quad(s) => spec_quad_hit(s, ray),
            Shape::Plane(s) => spec_plane_hit(s, ray),
            Shape::Tri(s) => spec_tri_hit(s, ray, tmin, tmax),
        }
    }

    pub open spec fn spec_aabb(self) -> Aabb {
        match self {
            Shape::Sphere(s) => s.spec_aabb(),
            Shape::Quad(s) => s.spec_aabb(),
            Shape::Plane(s) => s.spec_aabb(),
            Shape::Tri(s) => s.spec_aabb(),
        }
    }

    pub open spec fn spec_hit_uv(self, p: Vec3) -> Vec2 {
        match self {
            Shape::Sphere(s) => spec_sphere_uv(s, p),
            Shape::Quad(s) => spec_quad_uv(s, p),
            Shape::Plane(s) => spec_plane_uv(s, p),
            Shape::Tri(s) => spec_tri_uv(s, p),
        }
    }

    pub fn hit(&self, ray: &Ray, ray_tmin: i64, ray_tmax: i64) -> (r: Option<HitRecord>)
        requires
            self.wf(),
            ray.wf(),
        ensures
            r == self.spec_hit(*ray, ray_tmin, ray_tmax),
            r is Some ==> r.unwrap().wf() && sv_dot(ray.dir, r.unwrap().normal) <= 0,
    {
        match self {
            Shape::Sphere(s) => s.hit(ray, ray_tmin, ray_tmax),
            Shape::Quad(s) => s.hit(ray, ray_tmin, ray_tmax),
            Shape::Plane(s) => s.hit(ray, ray_tmin, ray_tmax),
            Shape::Tri(s) => s.hit(ray, ray_tmin, ray_tmax),
        }
    }

    pub fn get_hit_uv(&self, hit_pos: Vec3) -> (r: Vec2)
        requires
            self.wf(),
            hit_pos.wf(),
        ensures
            r == self.spec_hit_uv(hit_pos),
            r.wf(),
    {
        match self {
            Shape::Sphere(s) => s.get_hit_uv(hit_pos),
            Shape::Quad(s) => s.get_hit_uv(hit_pos),
            Shape::Plane(s) => s.get_hit_uv(hit_pos),
            Shape::Tri(s) => s.get_hit_uv(hit_pos),
        }
    }

    pub fn material(&self) -> (r: &Material)
        ensures
            r == self.spec_material(),
    {
        match self {
            Shape::Sphere(s) => s.material(),
            Shape::Quad(s) => s.material(),
            Shape::Plane(s) => s.material(),
            Shape::Tri(s) => s.material(),
        }
    }

    pub fn aabb(&self) -> (r: Aabb)
        requires
            self.wf(),
        ensures
            r == self.spec_aabb(),
            r.wf(),
    {
        match self {
            Shape::Sphere(s) => s.aabb(),
            Shape::Quad(s) => s.aabb(),
            Shape::Plane(s) => s.aabb(),
            Shape::Tri(s) => s.aabb(),
        }
    }
}

} // verus!
