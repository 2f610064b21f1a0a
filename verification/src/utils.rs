//! Angle and basis helpers for surface parameterization.

use vstd::prelude::*;

use crate::fx::{fx_div, fx_mul, fx_sub, fxb, spec_add, spec_div, spec_mul, spec_sub, SCALE};
use crate::rng::{spec_rng_out, spec_rng_step, spec_symmetric, Rng};
use crate::vec::{sv_cross, sv_dot, sv_len, sv_neg, sv_norm, Vec2, Vec3};

verus! {

/// Fixed-point approximations of pi and its multiples.
pub const PI_FX: i64 = 205887;

pub const HALF_PI_FX: i64 = 102944;

pub const TWO_PI_FX: i64 = 411775;

pub const QUARTER_PI_FX: i64 = 51472;

/// Coefficient of the quadratic arctangent approximation.
pub const ATAN_C_FX: i64 = 17892;

/// Arctangent of a ratio in the unit interval, by the quadratic
/// approximation `atan(z) = (pi/4) z + c z (1 - z)`.
pub open spec fn spec_atan_unit(z: int) -> int {
    spec_add(spec_mul(z, QUARTER_PI_FX as int), spec_mul(spec_mul(ATAN_C_FX as int, z), spec_sub(SCALE as int, z)))
}

fn atan_unit(z: i64) -> (r: i64)
    requires
        fxb(z as int),
    ensures
        r == spec_atan_unit(z as int),
        fxb(r as int),
{
    crate::fx::fx_add(fx_mul(z, QUARTER_PI_FX), fx_mul(fx_mul(ATAN_C_FX, z), fx_sub(SCALE, z)))
}

/// Quadrant-aware arctangent of `y / x`, in radians in `(-pi, pi]`.
pub open spec fn spec_atan2(y: int, x: int) -> int {
    if x == 0 && y == 0 {
        0
    } else {
        let ax = if x >= 0 {
            x
        } else {
            -x
        };
        let ay = if y >= 0 {
            y
        } else {
            -y
        };
        let base = if ax >= ay {
            spec_atan_unit(spec_div(ay, ax))
        } else {
            spec_sub(HALF_PI_FX as int, spec_atan_unit(spec_div(ax, ay)))
        };
        let flipped = if x < 0 {
            spec_sub(PI_FX as int, base)
        } else {
            base
        };
        if y < 0 {
            -flipped
        } else {
            flipped
        }
    }
}

pub fn atan2_fx(y: i64, x: i64) -> (r: i64)
    requires
        fxb(y as int),
        fxb(x as int),
    ensures
        r == spec_atan2(y as int, x as int),
        fxb(r as int),
{
    if x == 0 && y == 0 {
        return 0;
    }
    let ax = if x >= 0 {
        x
    } else {
        -x
    };
    let ay = if y >= 0 {
        y
    } else {
        -y
    };
    let base = if ax >= ay {
        atan_unit(fx_div(ay, ax))
    } else {
        fx_sub(HALF_PI_FX, atan_unit(fx_div(ax, ay)))
    };
    let flipped = if x < 0 {
        fx_sub(PI_FX, base)
    } else {
        base
    };
    if y < 0 {
        -flipped
    } else {
        flipped
    }
}

/// A unit vector perpendicular to `v`: cross with world-up where that is
/// non-degenerate, else with the world forward axis.
pub open spec fn spec_perpendicular_to(v: Vec3) -> Vec3 {
    let up = Vec3 { x: 0, y: SCALE, z: 0 };
    let c = sv_cross(v, up);
    if sv_len(c) > 0 {
        sv_norm(c)
    } else {
        sv_norm(sv_cross(v, Vec3 { x: 0, y: 0, z: SCALE }))
    }
}

pub fn perpendicular_to(v: Vec3) -> (r: Vec3)
    requires
        v.wf(),
    ensures
        r == spec_perpendicular_to(v),
        r.wf(),
{
    let up = Vec3 { x: 0, y: SCALE, z: 0 };
    let c = v.cross(&up);
    if c.length() > 0 {
        c.normalize()
    } else {
        v.cross(&Vec3 { x: 0, y: 0, z: SCALE }).normalize()
    }
}

/// Number of rejection-sampling attempts before giving up on the unit
/// ball and falling back to the zero vector; reaching it has vanishing
/// probability but bounds the loop.
pub const SAMPLE_TRIES: u32 = 32;

/// Rejection sampling of a point in the unit disk: two symmetric draws,
/// kept when they fall inside the disk.
pub open spec fn spec_disk_sample(state: u64, fuel: nat) -> (Vec2, u64)
    decreases fuel,
{
    if fuel == 0 {
        (Vec2 { x: 0, y: 0 }, state)
    } else {
        let s1 = spec_rng_step(state);
        let x = spec_symmetric(spec_rng_out(s1));
        let s2 = spec_rng_step(s1);
        let y = spec_symmetric(spec_rng_out(s2));
        if x * x + y * y < SCALE * SCALE {
            (Vec2 { x, y }, s2)
        } else {
            spec_disk_sample(s2, (fuel - 1) as nat)
        }
    }
}

fn disk_sample(rng: &mut Rng, fuel: u32) -> (r: Vec2)
    ensures
        (r, final(rng).state) == spec_disk_sample(old(rng).state, fuel as nat),
        r.wf(),
    decreases fuel,
{
    if fuel == 0 {
        Vec2 { x: 0, y: 0 }
    } else {
        let x = rng.next_symmetric();
        let y = rng.next_symmetric();
        proof {
            crate::fx::lemma_abs_mul_le(x as int, x as int, SCALE as int, SCALE as int);
            crate::fx::lemma_abs_mul_le(y as int, y as int, SCALE as int, SCALE as int);
        }
        if x * x + y * y < SCALE * SCALE {
            Vec2 { x, y }
        } else {
            disk_sample(rng, fuel - 1)
        }
    }
}

/// A random point in the unit disk, used to jitter ray origins.
pub fn random_vector_in_unit_disk(rng: &mut Rng) -> (r: Vec2)
    ensures
        (r, final(rng).state) == spec_disk_sample(old(rng).state, SAMPLE_TRIES as nat),
        r.wf(),
{
    disk_sample(rng, SAMPLE_TRIES)
}

/// Rejection sampling of a point in the unit ball.
pub open spec fn spec_sphere_sample(state: u64, fuel: nat) -> (Vec3, u64)
    decreases fuel,
{
    if fuel == 0 {
        (Vec3 { x: 0, y: 0, z: 0 }, state)
    } else {
        let s1 = spec_rng_step(state);
        let x = spec_symmetric(spec_rng_out(s1));
        let s2 = spec_rng_step(s1);
        let y = spec_symmetric(spec_rng_out(s2));
        let s3 = spec_rng_step(s2);
        let z = spec_symmetric(spec_rng_out(s3));
        if x * x + y * y + z * z < SCALE * SCALE {
            (Vec3 { x, y, z }, s3)
        } else {
            spec_sphere_sample(s3, (fuel - 1) as nat)
        }
    }
}

fn sphere_sample(rng: &mut Rng, fuel: u32) -> (r: Vec3)
    ensures
        (r, final(rng).state) == spec_sphere_sample(old(rng).state, fuel as nat),
        r.wf(),
    decreases fuel,
{
    if fuel == 0 {
        Vec3 { x: 0, y: 0, z: 0 }
    } else {
        let x = rng.next_symmetric();
        let y = rng.next_symmetric();
        let z = rng.next_symmetric();
        proof {
            crate::fx::lemma_abs_mul_le(x as int, x as int, SCALE as int, SCALE as int);
            crate::fx::lemma_abs_mul_le(y as int, y as int, SCALE as int, SCALE as int);
            crate::fx::lemma_abs_mul_le(z as int, z as int, SCALE as int, SCALE as int);
        }
        if x * x + y * y + z * z < SCALE * SCALE {
            Vec3 { x, y, z }
        } else {
            sphere_sample(rng, fuel - 1)
        }
    }
}

pub fn random_vector_in_unit_sphere(rng: &mut Rng) -> (r: Vec3)
    ensures
        (r, final(rng).state) == spec_sphere_sample(old(rng).state, SAMPLE_TRIES as nat),
        r.wf(),
{
    sphere_sample(rng, SAMPLE_TRIES)
}

/// A unit-ball sample folded into the hemisphere of `normal`.
pub open spec fn spec_hemisphere_sample(normal: Vec3, state: u64, fuel: nat) -> (Vec3, u64) {
    let (v, s) = spec_sphere_sample(state, fuel);
    if sv_dot(v, normal) > 0 {
        (v, s)
    } else {
        (sv_neg(v), s)
    }
}

pub fn random_vector_in_hemisphere(normal: Vec3, rng: &mut Rng) -> (r: Vec3)
    requires
        normal.wf(),
    ensures
        (r, final(rng).state) == spec_hemisphere_sample(
            normal,
            old(rng).state,
            SAMPLE_TRIES as nat,
        ),
        r.wf(),
{
    let in_unit_sphere = random_vector_in_unit_sphere(rng);
    if in_unit_sphere.dot(&normal) > 0 {
        in_unit_sphere
    } else {
        in_unit_sphere.neg()
    }
}

} // verus!
