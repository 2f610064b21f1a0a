//! Rays, lights and intersection records.

use vstd::prelude::*;

use crate::fx::fxb;
use crate::vec::{lemma_dot_neg, sv_add, sv_dot, sv_neg, sv_norm, sv_scale, Vec3};

verus! {

/// Clip a vector componentwise; the identity on well-formed vectors.
pub open spec fn sv_clip(a: Vec3) -> Vec3 {
    Vec3 {
        x: crate::vec::cl(a.x as int),
        y: crate::vec::cl(a.y as int),
        z: crate::vec::cl(a.z as int),
    }
}

pub fn vec_clip(a: Vec3) -> (r: Vec3)
    ensures
        r == sv_clip(a),
        r.wf(),
        a.wf() ==> r == a,
{
    Vec3::new(a.x, a.y, a.z)
}

#[derive(Clone, Copy, PartialEq, Eq, Structural, Debug)]
pub struct Ray {
    pub origin: Vec3,
    pub dir: Vec3,
}

impl Ray {
    pub open spec fn wf(self) -> bool {
        self.origin.wf() && self.dir.wf()
    }

    /// A ray through `origin` along `dir`, normalized at construction.
    pub fn new(origin: Vec3, dir: Vec3) -> (r: Ray)
        ensures
            r.origin == sv_clip(origin),
            r.dir == sv_norm(sv_clip(dir)),
            r.wf(),
    {
        let o = vec_clip(origin);
        let d = vec_clip(dir);
        Ray { origin: o, dir: d.normalize() }
    }

    /// The point `origin + t * dir`.
    pub fn at(&self, t: i64) -> (r: Vec3)
        requires
            self.wf(),
            fxb(t as int),
        ensures
            r == sv_add(self.origin, sv_scale(self.dir, t)),
            r.wf(),
    {
        self.origin.add(&self.dir.scale(t))
    }
}

#[derive(Clone, Copy, PartialEq, Eq, Structural, Debug)]
pub struct Light {
    pub pos: Vec3,
    pub color: Vec3,
}

impl Light {
    pub open spec fn wf(self) -> bool {
        self.pos.wf() && self.color.wf()
    }

    pub fn new(pos: Vec3, color: Vec3) -> (r: Light)
        ensures
            r.pos == sv_clip(pos),
            r.color == sv_clip(color),
            r.wf(),
    {
        Light { pos: vec_clip(pos), color: vec_clip(color) }
    }
}

#[derive(Clone, Copy, PartialEq, Eq, Structural, Debug)]
pub struct HitRecord {
    pub p: Vec3,
    pub normal: Vec3,
    pub t: i64,
    pub front_face: bool,
}

impl HitRecord {
    pub open spec fn wf(self) -> bool {
        self.p.wf() && self.normal.wf() && fxb(self.t as int)
    }

    pub fn new() -> (r: HitRecord)
        ensures
            r.p == (Vec3 { x: 0i64, y: 0i64, z: 0i64 }),
            r.normal == (Vec3 { x: 0i64, y: 0i64, z: 0i64 }),
            r.t == 0,
            !r.front_face,
            r.wf(),
    {
        HitRecord { p: Vec3::zero(), normal: Vec3::zero(), t: 0, front_face: false }
    }

    /// Orient `outward_normal` against the incoming ray. Afterwards the
    /// stored normal never points along the ray: its dot product with the
    /// ray direction is at most zero.
    pub fn set_face_normal(&mut self, r: &Ray, outward_normal: Vec3)
        requires
            r.wf(),
            outward_normal.wf(),
            old(self).wf(),
        ensures
            final(self).front_face == (sv_dot(r.dir, outward_normal) < 0),
            final(self).normal == if sv_dot(r.dir, outward_normal) < 0 {
                outward_normal
            } else {
                sv_neg(outward_normal)
            },
            final(self).p == old(self).p,
            final(self).t == old(self).t,
            final(self).wf(),
            sv_dot(r.dir, final(self).normal) <= 0,
    {
        let d = r.dir.dot(&outward_normal);
        self.front_face = d < 0;
        proof {
            lemma_dot_neg(r.dir, outward_normal);
        }
        self.normal = if self.front_face {
            outward_normal
        } else {
            outward_normal.neg()
        };
    }
}

/// The record a successful intersection produces: hit point from the ray
/// parameter, normal oriented against the incoming ray.
pub open spec fn spec_hit_record(ray: Ray, t: i64, outward: Vec3) -> HitRecord {
    let front = sv_dot(ray.dir, outward) < 0;
    HitRecord {
        p: sv_add(ray.origin, sv_scale(ray.dir, t)),
        normal: if front {
            outward
        } else {
            sv_neg(outward)
        },
        t: t,
        front_face: front,
    }
}

pub fn make_hit_record(ray: &Ray, t: i64, outward: Vec3) -> (r: HitRecord)
    requires
        ray.wf(),
        fxb(t as int),
        outward.wf(),
    ensures
        r == spec_hit_record(*ray, t, outward),
        r.wf(),
        sv_dot(ray.dir, r.normal) <= 0,
{
    let mut rec = HitRecord::new();
    rec.t = t;
    rec.p = ray.at(t);
    rec.set_face_normal(ray, outward);
    rec
}

impl Default for HitRecord {
    fn default() -> (r: Self)
        ensures
            r == (HitRecord {
                p: Vec3 { x: 0i64, y: 0i64, z: 0i64 },
                normal: Vec3 { x: 0i64, y: 0i64, z: 0i64 },
                t: 0i64,
                front_face: false,
            }),
    {
        HitRecord::new()
    }
}

} // verus!
