//! Fixed-point vectors and quaternions.
//!
//! `Vec3` is a point or direction, `Vec2` a surface (UV) coordinate and
//! `Quat` an orientation. Every executable operation is pinned to a
//! specification mirror built from the scalar model in `fx`.

use vstd::prelude::*;

use crate::fx::{
    clip, fx_clip, fxb, spec_add, spec_div, spec_mul, spec_sub, sqrt_floor, tdiv, fx_div, isqrt,
    lemma_abs_mul_le, lemma_sqrt_floor, FX_MAX, SCALE,
};

verus! {

/// Clip an unbounded model value back into a representable scalar.
pub open spec fn cl(a: int) -> i64 {
    clip(a) as i64
}

#[derive(Clone, Copy, PartialEq, Eq, Structural, Debug)]
pub struct Vec3 {
    pub x: i64,
    pub y: i64,
    pub z: i64,
}

#[derive(Clone, Copy, PartialEq, Eq, Structural, Debug)]
pub struct Vec2 {
    pub x: i64,
    pub y: i64,
}

impl Vec2 {
    pub open spec fn wf(self) -> bool {
        fxb(self.x as int) && fxb(self.y as int)
    }

    pub fn new(x: i64, y: i64) -> (r: Vec2)
        ensures
            r.x == clip(x as int),
            r.y == clip(y as int),
            r.wf(),
    {
        Vec2 { x: fx_clip(x), y: fx_clip(y) }
    }
}

/// Specification mirrors of the `Vec3` operations.
pub open spec fn sv_add(a: Vec3, b: Vec3) -> Vec3 {
    Vec3 { x: cl(a.x + b.x), y: cl(a.y + b.y), z: cl(a.z + b.z) }
}

pub open spec fn sv_sub(a: Vec3, b: Vec3) -> Vec3 {
    Vec3 { x: cl(a.x - b.x), y: cl(a.y - b.y), z: cl(a.z - b.z) }
}

pub open spec fn sv_neg(a: Vec3) -> Vec3 {
    Vec3 { x: cl(-a.x), y: cl(-a.y), z: cl(-a.z) }
}

pub open spec fn sv_scale(a: Vec3, s: i64) -> Vec3 {
    Vec3 {
        x: spec_mul(a.x as int, s as int) as i64,
        y: spec_mul(a.y as int, s as int) as i64,
        z: spec_mul(a.z as int, s as int) as i64,
    }
}

pub open spec fn sv_dot(a: Vec3, b: Vec3) -> i64 {
    cl(tdiv(a.x * b.x + a.y * b.y + a.z * b.z, SCALE as int))
}

pub open spec fn sv_cross(a: Vec3, b: Vec3) -> Vec3 {
    Vec3 {
        x: cl(tdiv(a.y * b.z - a.z * b.y, SCALE as int)),
        y: cl(tdiv(a.z * b.x - a.x * b.z, SCALE as int)),
        z: cl(tdiv(a.x * b.y - a.y * b.x, SCALE as int)),
    }
}

/// Raw (unscaled) squared length; in model units it carries `SCALE^2`.
pub open spec fn sv_len2_raw(a: Vec3) -> int {
    a.x * a.x + a.y * a.y + a.z * a.z
}

/// Length in fixed-point units: the square root of the raw squared length.
pub open spec fn sv_len(a: Vec3) -> i64 {
    cl(sqrt_floor(sv_len2_raw(a) as nat) as int)
}

/// Normalization; the zero vector stays zero.
pub open spec fn sv_norm(a: Vec3) -> Vec3 {
    let l = sv_len(a);
    if l == 0 {
        Vec3 { x: 0, y: 0, z: 0 }
    } else {
        Vec3 {
            x: spec_div(a.x as int, l as int) as i64,
            y: spec_div(a.y as int, l as int) as i64,
            z: spec_div(a.z as int, l as int) as i64,
        }
    }
}

impl Vec3 {
    pub open spec fn wf(self) -> bool {
        fxb(self.x as int) && fxb(self.y as int) && fxb(self.z as int)
    }

    /// Constructor; clips each component into the representable range.
    pub fn new(x: i64, y: i64, z: i64) -> (r: Vec3)
        ensures
            r.x == clip(x as int),
            r.y == clip(y as int),
            r.z == clip(z as int),
            r.wf(),
    {
        Vec3 { x: fx_clip(x), y: fx_clip(y), z: fx_clip(z) }
    }

    pub fn zero() -> (r: Vec3)
        ensures
            r == (Vec3 { x: 0i64, y: 0i64, z: 0i64 }),
            r.wf(),
    {
        Vec3 { x: 0, y: 0, z: 0 }
    }

    pub fn add(&self, o: &Vec3) -> (r: Vec3)
        requires
            self.wf(),
            o.wf(),
        ensures
            r == sv_add(*self, *o),
            r.wf(),
    {
        Vec3 { x: fx_clip(self.x + o.x), y: fx_clip(self.y + o.y), z: fx_clip(self.z + o.z) }
    }

    pub fn sub(&self, o: &Vec3) -> (r: Vec3)
        requires
            self.wf(),
            o.wf(),
        ensures
            r == sv_sub(*self, *o),
            r.wf(),
    {
        Vec3 { x: fx_clip(self.x - o.x), y: fx_clip(self.y - o.y), z: fx_clip(self.z - o.z) }
    }

    pub fn neg(&self) -> (r: Vec3)
        requires
            self.wf(),
        ensures
            r == sv_neg(*self),
            r.wf(),
    {
        Vec3 { x: -self.x, y: -self.y, z: -self.z }
    }

    pub fn scale(&self, s: i64) -> (r: Vec3)
        requires
            self.wf(),
            fxb(s as int),
        ensures
            r == sv_scale(*self, s),
            r.wf(),
    {
        Vec3 {
            x: crate::fx::fx_mul(self.x, s),
            y: crate::fx::fx_mul(self.y, s),
            z: crate::fx::fx_mul(self.z, s),
        }
    }

    pub fn dot(&self, o: &Vec3) -> (r: i64)
        requires
            self.wf(),
            o.wf(),
        ensures
            r == sv_dot(*self, *o),
            fxb(r as int),
    {
        proof {
            lemma_abs_mul_le(self.x as int, o.x as int, FX_MAX as int, FX_MAX as int);
            lemma_abs_mul_le(self.y as int, o.y as int, FX_MAX as int, FX_MAX as int);
            lemma_abs_mul_le(self.z as int, o.z as int, FX_MAX as int, FX_MAX as int);
        }
        let p: i128 = (self.x as i128) * (o.x as i128) + (self.y as i128) * (o.y as i128) + (
        self.z as i128) * (o.z as i128);
        let q: i128 = p / (SCALE as i128);
        clip128(q)
    }

    pub fn cross(&self, o: &Vec3) -> (r: Vec3)
        requires
            self.wf(),
            o.wf(),
        ensures
            r == sv_cross(*self, *o),
            r.wf(),
    {
        proof {
            lemma_abs_mul_le(self.y as int, o.z as int, FX_MAX as int, FX_MAX as int);
            lemma_abs_mul_le(self.z as int, o.y as int, FX_MAX as int, FX_MAX as int);
            lemma_abs_mul_le(self.z as int, o.x as int, FX_MAX as int, FX_MAX as int);
            lemma_abs_mul_le(self.x as int, o.z as int, FX_MAX as int, FX_MAX as int);
            lemma_abs_mul_le(self.x as int, o.y as int, FX_MAX as int, FX_MAX as int);
            lemma_abs_mul_le(self.y as int, o.x as int, FX_MAX as int, FX_MAX as int);
        }
        let cx: i128 = (self.y as i128) * (o.z as i128) - (self.z as i128) * (o.y as i128);
        let cy: i128 = (self.z as i128) * (o.x as i128) - (self.x as i128) * (o.z as i128);
        let cz: i128 = (self.x as i128) * (o.y as i128) - (self.y as i128) * (o.x as i128);
        Vec3 {
            x: clip128(cx / (SCALE as i128)),
            y: clip128(cy / (SCALE as i128)),
            z: clip128(cz / (SCALE as i128)),
        }
    }

    pub fn length(&self) -> (r: i64)
        requires
            self.wf(),
        ensures
            r == sv_len(*self),
            r >= 0,
            fxb(r as int),
    {
        proof {
            lemma_abs_mul_le(self.x as int, self.x as int, FX_MAX as int, FX_MAX as int);
            lemma_abs_mul_le(self.y as int, self.y as int, FX_MAX as int, FX_MAX as int);
            lemma_abs_mul_le(self.z as int, self.z as int, FX_MAX as int, FX_MAX as int);
            assert(self.x * self.x >= 0) by (nonlinear_arith);
            assert(self.y * self.y >= 0) by (nonlinear_arith);
            assert(self.z * self.z >= 0) by (nonlinear_arith);
        }
        let n: u128 = ((self.x as i128) * (self.x as i128) + (self.y as i128) * (self.y as i128)
            + (self.z as i128) * (self.z as i128)) as u128;
        let r = isqrt(n);
        proof {
            lemma_sqrt_floor(n as nat);
            assert((r as int) * (r as int) <= n);
            assert((r as int) <= 0x200_0000_0000) by (nonlinear_arith)
                requires
                    (r as int) * (r as int) <= 0x3_0000_0000_0000_0000_0000,
            ;
        }
        fx_clip(r as i64)
    }

    pub fn normalize(&self) -> (r: Vec3)
        requires
            self.wf(),
        ensures
            r == sv_norm(*self),
            r.wf(),
    {
        let l = self.length();
        if l == 0 {
            Vec3 { x: 0, y: 0, z: 0 }
        } else {
            Vec3 { x: fx_div(self.x, l), y: fx_div(self.y, l), z: fx_div(self.z, l) }
        }
    }
}

fn clip128(a: i128) -> (r: i64)
    ensures
        r == clip(a as int),
        fxb(r as int),
{
    if a > FX_MAX as i128 {
        FX_MAX
    } else if a < -(FX_MAX as i128) {
        -FX_MAX
    } else {
        a as i64
    }
}

/// Negating one argument negates a dot product.
pub proof fn lemma_dot_neg(a: Vec3, b: Vec3)
    requires
        a.wf(),
        b.wf(),
    ensures
        sv_dot(a, sv_neg(b)) == -sv_dot(a, b),
{
    let p = a.x * b.x + a.y * b.y + a.z * b.z;
    assert(sv_neg(b).x == -b.x && sv_neg(b).y == -b.y && sv_neg(b).z == -b.z);
    assert(a.x * (sv_neg(b).x as int) == -(a.x * b.x)) by (nonlinear_arith)
        requires
            sv_neg(b).x == -b.x,
    ;
    assert(a.y * (sv_neg(b).y as int) == -(a.y * b.y)) by (nonlinear_arith)
        requires
            sv_neg(b).y == -b.y,
    ;
    assert(a.z * (sv_neg(b).z as int) == -(a.z * b.z)) by (nonlinear_arith)
        requires
            sv_neg(b).z == -b.z,
    ;
    lemma_tdiv_neg(p, SCALE as int);
    assert(clip(tdiv(-p, SCALE as int)) == -clip(tdiv(p, SCALE as int)));
}

/// Truncating division is odd in its dividend.
pub proof fn lemma_tdiv_neg(a: int, b: int)
    ensures
        tdiv(-a, b) == -tdiv(a, b),
{
}

/// An orientation, as a quaternion expected to be of unit length.
#[derive(Clone, Copy, PartialEq, Eq, Structural, Debug)]
pub struct Quat {
    pub w: i64,
    pub x: i64,
    pub y: i64,
    pub z: i64,
}

/// Rotation of a vector by a quaternion, via
/// `v + w * t + q_vec x t` where `t = 2 (q_vec x v)`.
pub open spec fn sq_rotate(q: Quat, v: Vec3) -> Vec3 {
    let u = Vec3 { x: q.x, y: q.y, z: q.z };
    let t = sv_scale(sv_cross(u, v), (2 * SCALE) as i64);
    sv_add(sv_add(v, sv_scale(t, q.w)), sv_cross(u, t))
}

impl Quat {
    pub open spec fn wf(self) -> bool {
        fxb(self.w as int) && fxb(self.x as int) && fxb(self.y as int) && fxb(self.z as int)
    }

    /// The identity orientation.
    pub fn identity() -> (r: Quat)
        ensures
            r == (Quat { w: SCALE as i64, x: 0i64, y: 0i64, z: 0i64 }),
            r.wf(),
    {
        Quat { w: SCALE, x: 0, y: 0, z: 0 }
    }

    pub fn new(w: i64, x: i64, y: i64, z: i64) -> (r: Quat)
        ensures
            r.w == clip(w as int),
            r.x == clip(x as int),
            r.y == clip(y as int),
            r.z == clip(z as int),
            r.wf(),
    {
        Quat { w: fx_clip(w), x: fx_clip(x), y: fx_clip(y), z: fx_clip(z) }
    }

    /// The conjugate: the inverse rotation for a unit quaternion.
    pub fn conjugate(&self) -> (r: Quat)
        requires
            self.wf(),
        ensures
            r == (Quat { w: self.w, x: cl(-self.x), y: cl(-self.y), z: cl(-self.z) }),
            r.wf(),
    {
        Quat { w: self.w, x: -self.x, y: -self.y, z: -self.z }
    }

    pub fn rotate(&self, v: &Vec3) -> (r: Vec3)
        requires
            self.wf(),
            v.wf(),
        ensures
            r == sq_rotate(*self, *v),
            r.wf(),
    {
        let u = Vec3 { x: self.x, y: self.y, z: self.z };
        let t = u.cross(v).scale(2 * SCALE);
        v.add(&t.scale(self.w)).add(&u.cross(&t))
    }
}

} // verus!
